use vstd::prelude::*;

verus! {

/// The character for one decimal digit.
pub open spec fn spec_digit(d: nat) -> char {
    if d == 0 {
        '0'
    } else if d == 1 {
        '1'
    } else if d == 2 {
        '2'
    } else if d == 3 {
        '3'
    } else if d == 4 {
        '4'
    } else if d == 5 {
        '5'
    } else if d == 6 {
        '6'
    } else if d == 7 {
        '7'
    } else if d == 8 {
        '8'
    } else {
        '9'
    }
}

/// Decimal digits of `n`, most significant first, with no leading zeros
/// (a single zero when `n` is zero).
pub open spec fn spec_digits(n: nat) -> Seq<char>
    decreases n,
{
    if n < 10 {
        seq![spec_digit(n)]
    } else {
        spec_digits(n / 10).push(spec_digit(n % 10))
    }
}

/// Fixed one-decimal-place rendering of a value given in tenths: the integer
/// part, a dot, the tenths digit, and a leading minus sign when `negative`
/// (also in front of a zero magnitude).
pub open spec fn spec_tenths_str(negative: bool, tenths: nat) -> Seq<char> {
    (if negative {
        seq!['-']
    } else {
        Seq::<char>::empty()
    }) + spec_digits(tenths / 10) + seq!['.', spec_digit(tenths % 10)]
}

/// Characters that one-decimal strings are made of.
pub open spec fn plain_char(c: char) -> bool {
    c == '-' || c == '.' || c == '0' || c == '1' || c == '2' || c == '3' || c == '4' || c == '5'
        || c == '6' || c == '7' || c == '8' || c == '9'
}

/// Every character of a digit sequence is a plain character.
pub proof fn lemma_digits_plain(n: nat)
    ensures
        forall|i: int| 0 <= i < spec_digits(n).len() ==> plain_char(#[trigger] spec_digits(n)[i]),
    decreases n,
{
    if n < 10 {
        assert(spec_digits(n) == seq![spec_digit(n)]);
        assert(plain_char(spec_digits(n)[0]));
    } else {
        lemma_digits_plain(n / 10);
        assert forall|i: int| 0 <= i < spec_digits(n).len() implies plain_char(
            #[trigger] spec_digits(n)[i],
        ) by {
            let prefix = spec_digits(n / 10);
            if i < prefix.len() {
                assert(spec_digits(n)[i] == prefix[i]);
            } else {
                assert(spec_digits(n)[i] == spec_digit(n % 10));
            }
        }
    }
}

/// Every character of a one-decimal string is a plain character.
pub proof fn lemma_tenths_str_plain(negative: bool, tenths: nat)
    ensures
        forall|i: int| 0 <= i < spec_tenths_str(negative, tenths).len() ==> plain_char(
            #[trigger] spec_tenths_str(negative, tenths)[i],
        ),
{
    lemma_digits_plain(tenths / 10);
}

fn digit_str(d: u16) -> (r: &'static str)
    requires
        d < 10,
    ensures
        r@ == seq![spec_digit(d as nat)],
{
    proof {
        reveal_strlit("0");
        reveal_strlit("1");
        reveal_strlit("2");
        reveal_strlit("3");
        reveal_strlit("4");
        reveal_strlit("5");
        reveal_strlit("6");
        reveal_strlit("7");
        reveal_strlit("8");
        reveal_strlit("9");
        assert("0"@ =~= seq![spec_digit(0)]);
        assert("1"@ =~= seq![spec_digit(1)]);
        assert("2"@ =~= seq![spec_digit(2)]);
        assert("3"@ =~= seq![spec_digit(3)]);
        assert("4"@ =~= seq![spec_digit(4)]);
        assert("5"@ =~= seq![spec_digit(5)]);
        assert("6"@ =~= seq![spec_digit(6)]);
        assert("7"@ =~= seq![spec_digit(7)]);
        assert("8"@ =~= seq![spec_digit(8)]);
        assert("9"@ =~= seq![spec_digit(9)]);
    }
    match d {
        0 => "0",
        1 => "1",
        2 => "2",
        3 => "3",
        4 => "4",
        5 => "5",
        6 => "6",
        7 => "7",
        8 => "8",
        _ => "9",
    }
}

fn u16_digits(n: u16) -> (r: String)
    ensures
        r@ == spec_digits(n as nat),
    decreases n,
{
    if n < 10 {
        digit_str(n).to_owned()
    } else {
        let mut s = u16_digits(n / 10);
        s.append(digit_str(n % 10));
        proof {
            assert(s@ =~= spec_digits(n as nat));
        }
        s
    }
}

/// Render a value given in tenths as a fixed one-decimal string, as the
/// telemetry payload carries it.
pub fn format_tenths(negative: bool, tenths: u16) -> (r: String)
    ensures
        r@ == spec_tenths_str(negative, tenths as nat),
{
    let mut s = if negative {
        "-".to_owned()
    } else {
        String::new()
    };
    let digits = u16_digits(tenths / 10);
    s.append(digits.as_str());
    s.append(".");
    s.append(digit_str(tenths % 10));
    proof {
        reveal_strlit("-");
        reveal_strlit(".");
        assert(s@ =~= spec_tenths_str(negative, tenths as nat));
    }
    s
}

} // verus!
