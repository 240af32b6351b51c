use vstd::prelude::*;

use crate::decimal::format_tenths;
use crate::decimal::lemma_tenths_str_plain;
use crate::decimal::plain_char;
use crate::decimal::spec_tenths_str;
use crate::dht22::Reading;

verus! {

/// A JSON string literal holding `s` verbatim: valid only for characters
/// that need no escape.
pub open spec fn json_quoted(s: Seq<char>) -> Seq<char> {
    seq!['"'] + s + seq!['"']
}

/// The temperature bridge's JSON payload: both values as fixed one-decimal
/// strings.
pub open spec fn spec_temperature_payload(rd: Reading) -> Seq<char> {
    "{\"temperature\":"@ + json_quoted(
        spec_tenths_str(rd.temperature_negative, rd.temperature_tenths as nat),
    ) + ",\"humidity\":"@ + json_quoted(spec_tenths_str(false, rd.humidity_tenths as nat)) + "}"@
}

/// The light bridge's JSON payload: the observed level as a JSON bool.
pub open spec fn spec_light_payload(light: bool) -> Seq<char> {
    "{\"light\":"@ + (if light {
        "true"@
    } else {
        "false"@
    }) + "}"@
}

/// Relies on serde_json::to_string for a string slice: a character that
/// needs no JSON escape (here only digits, minus and dot are admitted)
/// passes through verbatim between two double quotes.
#[verifier::external_body]
fn json_quote(s: &str) -> (r: String)
    requires
        forall|i: int| 0 <= i < s@.len() ==> plain_char(#[trigger] s@[i]),
    ensures
        r@ == json_quoted(s@),
{
    serde_json::to_string(s).unwrap()
}

/// Relies on serde_json::to_string for a bool: it serializes as the bare
/// word true or false.
#[verifier::external_body]
fn json_bool(value: bool) -> (r: String)
    ensures
        value ==> r@ == "true"@,
        !value ==> r@ == "false"@,
{
    serde_json::to_string(&value).unwrap()
}

/// Build the temperature bridge's payload for one reading.
pub fn temperature_payload(reading: &Reading) -> (r: String)
    ensures
        r@ == spec_temperature_payload(*reading),
{
    let temperature = format_tenths(reading.temperature_negative, reading.temperature_tenths);
    let humidity = format_tenths(false, reading.humidity_tenths);
    proof {
        lemma_tenths_str_plain(reading.temperature_negative, reading.temperature_tenths as nat);
        lemma_tenths_str_plain(false, reading.humidity_tenths as nat);
    }
    let quoted_temperature = json_quote(temperature.as_str());
    let quoted_humidity = json_quote(humidity.as_str());
    let mut s = "{\"temperature\":".to_owned();
    s.append(quoted_temperature.as_str());
    s.append(",\"humidity\":");
    s.append(quoted_humidity.as_str());
    s.append("}");
    proof {
        assert(s@ =~= spec_temperature_payload(*reading));
    }
    s
}

/// Build the light bridge's payload for one observation.
pub fn light_payload(light: bool) -> (r: String)
    ensures
        r@ == spec_light_payload(light),
{
    let word = json_bool(light);
    let mut s = "{\"light\":".to_owned();
    s.append(word.as_str());
    s.append("}");
    proof {
        assert(s@ =~= spec_light_payload(light));
    }
    s
}

} // verus!
