use vstd::prelude::*;

use crate::decimal::spec_tenths_str;
use crate::decimal::format_tenths;
use crate::ReadingError;

verus! {

/// Ceiling on every busy-wait phase count; exceeding it means the sensor
/// stopped driving the line and the capture has timed out.
pub const MAX_COUNT: usize = 32000;

/// Number of pulse pairs in one transmission: one sync pair followed by 40
/// data-bit pairs.
pub const DHT_PULSES: usize = 41;

/// A temperature and humidity reading decoded from one DHT22 transmission.
///
/// Values are held in tenths of a unit, exactly as the sensor transmits them;
/// the sign of the temperature is kept apart so that a negative zero is not
/// lost.
#[derive(Clone, Copy, Debug, PartialEq, Eq, Structural)]
pub struct Reading {
    /// Relative humidity in tenths of a percent.
    pub humidity_tenths: u16,
    /// Temperature magnitude in tenths of a degree Celsius.
    pub temperature_tenths: u16,
    /// Whether the sensor flagged the temperature as negative.
    pub temperature_negative: bool,
}

/// The 82 phase durations of one transmission, in busy-wait iterations:
/// a sync low and a sync high, then a low and a high phase for each of the
/// 40 data bits.
pub struct PulseTrain {
    pub counts: Vec<usize>,
}

/// A well-formed train holds exactly 82 counts, each within the busy-wait
/// ceiling.
pub open spec fn train_wf(s: Seq<usize>) -> bool {
    &&& s.len() == 82
    &&& forall|i: int| 0 <= i < 82 ==> #[trigger] s[i] <= MAX_COUNT
}

impl View for PulseTrain {
    type V = Seq<usize>;

    open spec fn view(&self) -> Seq<usize> {
        self.counts@
    }
}

impl PulseTrain {
    pub open spec fn wf(&self) -> bool {
        train_wf(self@)
    }

    /// Accept a sequence of phase counts as a pulse train exactly when it is
    /// well formed.
    pub fn new(counts: Vec<usize>) -> (r: Option<PulseTrain>)
        ensures
            train_wf(counts@) ==> (r matches Some(t) && t@ == counts@ && t.wf()),
            !train_wf(counts@) ==> r is None,
    {
        if counts.len() != 82 {
            return None;
        }
        let mut i: usize = 0;
        while i < 82
            invariant
                i <= 82,
                counts@.len() == 82,
                forall|j: int| 0 <= j < i ==> #[trigger] counts@[j] <= MAX_COUNT,
            decreases 82 - i,
        {
            if counts[i] > MAX_COUNT {
                return None;
            }
            i += 1;
        }
        Some(PulseTrain { counts })
    }
}

/// Sum of the first `k` data-bit high phases: the entries at indices
/// 3, 5, ..., 2*k + 1.
pub open spec fn sum_data_highs(s: Seq<usize>, k: int) -> int
    decreases k,
{
    if k <= 0 {
        0
    } else {
        sum_data_highs(s, k - 1) + s[2 * k + 1]
    }
}

/// The adaptive bit threshold: the integer mean of the 40 data-bit high
/// phases, the two sync phases excluded.
pub open spec fn spec_threshold(s: Seq<usize>) -> int {
    sum_data_highs(s, 40) / 40
}

/// Data bit `k` (0-based) is 1 exactly when its high phase lasted at least
/// as long as the threshold; a tie resolves to 1.
pub open spec fn spec_bit(s: Seq<usize>, th: int, k: int) -> bool {
    s[3 + 2 * k] >= th
}

/// The value of the first `j` bits of byte `b`, packed most significant
/// first.
pub open spec fn spec_byte_prefix(s: Seq<usize>, th: int, b: int, j: int) -> nat
    decreases j,
{
    if j <= 0 {
        0
    } else {
        spec_byte_prefix(s, th, b, j - 1) * 2 + (if spec_bit(s, th, 8 * b + j - 1) {
            1nat
        } else {
            0nat
        })
    }
}

/// Byte `b` (0-based) of the five transmitted bytes.
pub open spec fn spec_byte(s: Seq<usize>, th: int, b: int) -> nat {
    spec_byte_prefix(s, th, b, 8)
}

/// The transmitted checksum byte must equal the wrapping sum of the four
/// data bytes.
pub open spec fn spec_checksum_ok(s: Seq<usize>, th: int) -> bool {
    spec_byte(s, th, 4) == (spec_byte(s, th, 0) + spec_byte(s, th, 1) + spec_byte(s, th, 2)
        + spec_byte(s, th, 3)) % 256
}

/// Whether the sensor flagged the temperature as negative: bit 7 of the
/// high temperature byte.
pub open spec fn spec_temp_negative(hi: u8) -> bool {
    hi >= 128
}

/// Temperature magnitude in tenths: the high byte with the sign bit masked
/// off, then the low byte.
pub open spec fn spec_temp_magnitude(hi: u8, lo: u8) -> nat {
    ((hi % 128) * 256 + lo) as nat
}

/// Humidity in tenths: high byte then low byte.
pub open spec fn spec_humidity(hi: u8, lo: u8) -> nat {
    (hi * 256 + lo) as nat
}

pub open spec fn two_pow(j: int) -> nat
    decreases j,
{
    if j <= 0 {
        1
    } else {
        2 * two_pow(j - 1)
    }
}

/// A `j`-bit prefix is below 2^j.
pub proof fn lemma_byte_prefix_bound(s: Seq<usize>, th: int, b: int, j: int)
    requires
        0 <= j,
    ensures
        spec_byte_prefix(s, th, b, j) < two_pow(j),
    decreases j,
{
    if j > 0 {
        lemma_byte_prefix_bound(s, th, b, j - 1);
    }
}

pub proof fn lemma_two_pow_le(a: int, b: int)
    requires
        0 <= a <= b,
    ensures
        two_pow(a) <= two_pow(b),
    decreases b,
{
    if a < b {
        lemma_two_pow_le(a, b - 1);
    }
}

/// What `decode` returns, as a function of the train alone.
pub open spec fn spec_decode(s: Seq<usize>) -> Result<Reading, ReadingError> {
    let th = spec_threshold(s);
    let b0 = spec_byte(s, th, 0) as u8;
    let b1 = spec_byte(s, th, 1) as u8;
    let b2 = spec_byte(s, th, 2) as u8;
    let b3 = spec_byte(s, th, 3) as u8;
    if !spec_checksum_ok(s, th) {
        Err(ReadingError::Checksum)
    } else {
        Ok(
            Reading {
                humidity_tenths: spec_humidity(b0, b1) as u16,
                temperature_tenths: spec_temp_magnitude(b2, b3) as u16,
                temperature_negative: spec_temp_negative(b2),
            },
        )
    }
}

/// Decode one pulse train into a checksum-validated reading.
///
/// Pure and deterministic: the result is a function of the train alone.
pub fn decode(train: &PulseTrain) -> (r: Result<Reading, ReadingError>)
    requires
        train.wf(),
    ensures
        r == spec_decode(train@),
{
    let ghost s = train@;
    let counts = &train.counts;

    let mut sum: usize = 0;
    let mut k: usize = 0;
    while k < 40
        invariant
            k <= 40,
            train.wf(),
            s == train@,
            counts == &train.counts,
            sum == sum_data_highs(s, k as int),
            sum <= k * MAX_COUNT,
        decreases 40 - k,
    {
        sum = sum + counts[2 * k + 3];
        k += 1;
    }
    let threshold: usize = sum / 40;
    let ghost th = threshold as int;
    assert(th == spec_threshold(s));

    let mut data: Vec<u8> = Vec::new();
    data.push(0);
    data.push(0);
    data.push(0);
    data.push(0);
    data.push(0);

    let mut k: usize = 0;
    while k < 40
        invariant
            k <= 40,
            train.wf(),
            s == train@,
            counts == &train.counts,
            threshold == th,
            data@.len() == 5,
            forall|b: int|
                0 <= b < 5 ==> #[trigger] data@[b] == (if 8 * b + 8 <= k {
                    spec_byte(s, th, b)
                } else if 8 * b <= k {
                    spec_byte_prefix(s, th, b, k - 8 * b)
                } else {
                    0nat
                }),
        decreases 40 - k,
    {
        let idx = k / 8;
        assert(8 * idx <= k < 8 * idx + 8);
        let ghost j = k - 8 * idx;
        let prev = data[idx];
        assert(prev == spec_byte_prefix(s, th, idx as int, j));
        proof {
            lemma_byte_prefix_bound(s, th, idx as int, j);
            lemma_two_pow_le(j, 7);
            assert(two_pow(0) == 1);
            assert(two_pow(1) == 2);
            assert(two_pow(2) == 4);
            assert(two_pow(3) == 8);
            assert(two_pow(4) == 16);
            assert(two_pow(5) == 32);
            assert(two_pow(6) == 64);
            assert(two_pow(7) == 128);
            assert(prev < 128);
        }
        let bit_high = counts[3 + 2 * k] >= threshold;
        let next = if bit_high {
            prev * 2 + 1
        } else {
            prev * 2
        };
        data[idx] = next;
        proof {
            assert(bit_high == spec_bit(s, th, k as int));
            assert(8 * (idx as int) + j == k as int);
            assert(next == spec_byte_prefix(s, th, idx as int, j + 1));
        }
        k += 1;
    }

    assert(forall|b: int| 0 <= b < 5 ==> #[trigger] data@[b] == spec_byte(s, th, b));

    let sum4: u32 = data[0] as u32 + data[1] as u32 + data[2] as u32 + data[3] as u32;
    let expected: u8 = (sum4 % 256) as u8;
    if data[4] != expected {
        return Err(ReadingError::Checksum);
    }

    let humidity: u16 = (data[0] as u16) * 256 + (data[1] as u16);
    let temperature: u16 = ((data[2] % 128) as u16) * 256 + (data[3] as u16);
    let negative = data[2] >= 128;
    Ok(
        Reading {
            humidity_tenths: humidity,
            temperature_tenths: temperature,
            temperature_negative: negative,
        },
    )
}

/// Decoding is pure: equal trains decode to equal results, values and errors
/// alike.
pub proof fn lemma_decode_deterministic(a: Seq<usize>, b: Seq<usize>)
    requires
        a == b,
    ensures
        spec_decode(a) == spec_decode(b),
{
}

/// A checksum mismatch is rejected outright: whatever the data bytes hold,
/// the result is the checksum error and never a reading.
pub proof fn lemma_checksum_mismatch_rejects(s: Seq<usize>)
    requires
        !spec_checksum_ok(s, spec_threshold(s)),
    ensures
        spec_decode(s) == Result::<Reading, ReadingError>::Err(ReadingError::Checksum),
{
}

proof fn lemma_sum_data_highs_congruent(a: Seq<usize>, b: Seq<usize>, k: int)
    requires
        forall|i: int| 1 <= i <= k ==> a[#[trigger] (2 * i + 1)] == b[2 * i + 1],
    ensures
        sum_data_highs(a, k) == sum_data_highs(b, k),
    decreases k,
{
    if k > 0 {
        lemma_sum_data_highs_congruent(a, b, k - 1);
    }
}

/// The threshold is computed from the 40 data-bit high phases alone: two
/// trains that agree on the entries at indices 3, 5, ..., 81 share the same
/// threshold, whatever their sync phases and low phases hold.
pub proof fn lemma_threshold_from_data_highs_only(a: Seq<usize>, b: Seq<usize>)
    requires
        forall|k: int| 1 <= k <= 40 ==> a[#[trigger] (2 * k + 1)] == b[2 * k + 1],
    ensures
        spec_threshold(a) == spec_threshold(b),
{
    lemma_sum_data_highs_congruent(a, b, 40);
}

/// The sign is bit 7 of the high temperature byte, and the magnitude reads
/// the masked byte: masking the sign bit away changes nothing of it.
pub proof fn lemma_sign_bit(hi: u8, lo: u8)
    ensures
        spec_temp_negative(hi) <==> (hi & 0x80) != 0,
        spec_temp_magnitude(hi, lo) == spec_temp_magnitude(hi & 0x7f, lo),
{
    assert((hi >= 128) <==> (hi & 0x80) != 0) by (bit_vector);
    assert((hi & 0x7f) % 128 == hi % 128) by (bit_vector);
}

/// Decoding succeeds exactly when the checksum holds; there is no other
/// way to fail and no other demand on a well-formed train.
pub proof fn lemma_decode_ok_iff_checksum(s: Seq<usize>)
    ensures
        spec_decode(s) is Ok <==> spec_checksum_ok(s, spec_threshold(s)),
{
}

/// A decoded reading is negative exactly when bit 7 of the transmitted high
/// temperature byte is set, and its magnitude ignores that bit.
pub proof fn lemma_reading_sign(s: Seq<usize>)
    requires
        spec_decode(s) is Ok,
    ensures
        ({
            let th = spec_threshold(s);
            let hi = spec_byte(s, th, 2) as u8;
            let lo = spec_byte(s, th, 3) as u8;
            let rd = spec_decode(s)->Ok_0;
            &&& (rd.temperature_negative <==> (hi & 0x80) != 0)
            &&& rd.temperature_tenths == spec_temp_magnitude(hi & 0x7f, lo)
        }),
{
    let th = spec_threshold(s);
    let hi = spec_byte(s, th, 2) as u8;
    let lo = spec_byte(s, th, 3) as u8;
    lemma_sign_bit(hi, lo);
    assert(spec_temp_magnitude(hi, lo) < 65536);
}

/// Decode a train and render the reading the way the telemetry payload
/// carries it: fixed one-decimal strings for temperature and humidity.
pub fn read_temperature_and_humidity(train: &PulseTrain) -> (r: Result<
    (String, String),
    ReadingError,
>)
    requires
        train.wf(),
    ensures
        match spec_decode(train@) {
            Ok(rd) => r matches Ok(p) && p.0@ == spec_tenths_str(
                rd.temperature_negative,
                rd.temperature_tenths as nat,
            ) && p.1@ == spec_tenths_str(false, rd.humidity_tenths as nat),
            Err(e) => r == Result::<(String, String), ReadingError>::Err(e),
        },
{
    match decode(train) {
        Ok(reading) => {
            let temperature = format_tenths(reading.temperature_negative, reading.temperature_tenths);
            let humidity = format_tenths(false, reading.humidity_tenths);
            Ok((temperature, humidity))
        },
        Err(e) => Err(e),
    }
}

} // verus!
