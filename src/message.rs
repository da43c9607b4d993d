//! Outbound messages: the text form of a reading, as an OSC message to the
//! chatbox, and the decimal text of a reading for the log.
use vstd::prelude::*;
use vstd::utf8::encode_utf8;

verus! {

/// The OSC address of the normalized heart-rate parameter.
pub const HEART_RATE_PARAMETER_ADDRESS: &'static str = "/avatar/parameters/HeartRate";

/// The OSC address of the chatbox input.
pub const CHATBOX_ADDRESS: &'static str = "/chatbox/input";

#[verifier::external_type_specification]
#[verifier::external_body]
pub struct ExOscError(rosc::OscError);

/// The character of a decimal digit.
pub open spec fn digit_char(d: nat) -> char {
    if d == 0 { '0' }
    else if d == 1 { '1' }
    else if d == 2 { '2' }
    else if d == 3 { '3' }
    else if d == 4 { '4' }
    else if d == 5 { '5' }
    else if d == 6 { '6' }
    else if d == 7 { '7' }
    else if d == 8 { '8' }
    else { '9' }
}

/// The decimal text of `n`, without leading zeros.
pub open spec fn decimal(n: nat) -> Seq<char>
    decreases n,
{
    if n < 10 {
        seq![digit_char(n)]
    } else {
        decimal(n / 10) + seq![digit_char(n % 10)]
    }
}

/// An OSC string: the bytes, then one to four NUL bytes up to a multiple of four.
pub open spec fn osc_string(bytes: Seq<u8>) -> Seq<u8> {
    bytes + Seq::new((4 - bytes.len() % 4) as nat, |i: int| 0u8)
}

/// The type tag of an OSC boolean.
pub open spec fn bool_tag(b: bool) -> char {
    if b { 'T' } else { 'F' }
}

/// An OSC message to `address` with a string argument and two booleans: the
/// address, the type tags ",s" and one tag per boolean, and the string, each
/// as an OSC string; booleans carry no data beyond their tag.
pub open spec fn osc_text_message(address: Seq<char>, text: Seq<char>, first: bool, second: bool) -> Seq<u8> {
    osc_string(encode_utf8(address))
        + osc_string(encode_utf8(seq![',', 's', bool_tag(first), bool_tag(second)]))
        + osc_string(encode_utf8(text))
}

/// Relies on rosc::encoder::encode for a message with one string and two
/// boolean arguments: it lays the message out as `osc_text_message` says
/// (`encode_message` and `encode_string_into`), and writing into a `Vec`
/// never fails.
#[verifier::external_body]
fn encode_text_message(address: &str, text: &str, first: bool, second: bool) -> (r: Result<Vec<u8>, rosc::OscError>)
    ensures
        r is Ok,
        r is Ok ==> r->Ok_0@ == osc_text_message(address@, text@, first, second),
{
    let message = rosc::OscMessage {
        addr: address.to_string(),
        args: vec![rosc::OscType::String(text.to_string()), rosc::OscType::Bool(first), rosc::OscType::Bool(second)],
    };
    rosc::encoder::encode(&rosc::OscPacket::Message(message))
}

/// The text of one digit.
fn digit_text(d: u8) -> (r: &'static str)
    requires
        d < 10,
    ensures
        r@ == seq![digit_char(d as nat)],
{
    proof {
        reveal_strlit("0");
        reveal_strlit("1");
        reveal_strlit("2");
        reveal_strlit("3");
        reveal_strlit("4");
        reveal_strlit("5");
        reveal_strlit("6");
        reveal_strlit("7");
        reveal_strlit("8");
        reveal_strlit("9");
    }
    if d == 0 { "0" }
    else if d == 1 { "1" }
    else if d == 2 { "2" }
    else if d == 3 { "3" }
    else if d == 4 { "4" }
    else if d == 5 { "5" }
    else if d == 6 { "6" }
    else if d == 7 { "7" }
    else if d == 8 { "8" }
    else { "9" }
}

/// The decimal text of a reading, as written to the log.
pub fn decimal_text(n: u8) -> (r: String)
    ensures
        r@ == decimal(n as nat),
{
    let mut s = String::new();
    if n >= 100 {
        s.append(digit_text(n / 100));
    }
    if n >= 10 {
        s.append(digit_text((n / 10) % 10));
    }
    s.append(digit_text(n % 10));
    proof {
        let m = n as nat;
        if m >= 100 {
            assert(decimal(m / 100) == seq![digit_char(m / 100)]);
            assert(m / 10 / 10 == m / 100);
            assert(decimal(m / 10) == decimal(m / 100) + seq![digit_char((m / 10) % 10)]);
        } else if m >= 10 {
            assert(decimal(m / 10) == seq![digit_char(m / 10)]);
        }
    }
    s
}

/// The chatbox text for a reading: its decimal value and " bpm".
pub open spec fn heart_rate_text_of(beats_per_minute: u8) -> Seq<char> {
    decimal(beats_per_minute as nat) + " bpm"@
}

/// The chatbox text for a reading.
pub fn heart_rate_text(beats_per_minute: u8) -> (r: String)
    ensures
        r@ == heart_rate_text_of(beats_per_minute),
{
    let s = decimal_text(beats_per_minute);
    s.concat(" bpm")
}

/// The OSC message that shows a reading in the chatbox: its text, sent at once
/// (`true`) and without a notification sound (`false`).
pub fn chatbox_message(beats_per_minute: u8) -> (r: Vec<u8>)
    ensures
        r@ == osc_text_message(CHATBOX_ADDRESS@, heart_rate_text_of(beats_per_minute), true, false),
{
    let text = heart_rate_text(beats_per_minute);
    match encode_text_message(CHATBOX_ADDRESS, text.as_str(), true, false) {
        Ok(bytes) => bytes,
        Err(_) => Vec::new(),
    }
}

} // verus!
