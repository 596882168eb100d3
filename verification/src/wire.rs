//! The wire form of a record: the JSON object that sits in the buffer and
//! is forwarded to the sink.
//!
//! ```text
//! {"_timestamp":<microseconds>,"record":<json>,"requestId":<string>,"type":<string>}
//! ```
//!
//! `requestId` is left out where the record carries none.

use vstd::prelude::*;
use vstd::string::*;

verus! {

/// The error type of `serde_json`, made known so that it can pass through
/// verified code. Nothing is known of what a value of it holds.
#[verifier::external_type_specification]
#[verifier::external_body]
pub struct ExJsonError(serde_json::Error);

/// The JSON string literal that `serde_json::to_string` writes for `text`:
/// the text between double quotes, with escapes where JSON asks for them.
/// `None` where it reports an error.
pub uninterp spec fn json_string_literal(text: Seq<char>) -> Option<Seq<char>>;

/// Calls `serde_json::to_string` on a string slice. Trusted: the outcome is
/// the one that `json_string_literal` names for the text.
#[verifier::external_body]
pub(crate) fn json_string(text: &str) -> (literal: Result<String, serde_json::Error>)
    ensures
        match literal {
            Ok(written) => json_string_literal(text@) == Some(written@),
            Err(_) => json_string_literal(text@) is None,
        },
{
    serde_json::to_string(text)
}

/// The character of a decimal digit.
pub open spec fn digit_char(digit: nat) -> char {
    if digit == 0 {
        '0'
    } else if digit == 1 {
        '1'
    } else if digit == 2 {
        '2'
    } else if digit == 3 {
        '3'
    } else if digit == 4 {
        '4'
    } else if digit == 5 {
        '5'
    } else if digit == 6 {
        '6'
    } else if digit == 7 {
        '7'
    } else if digit == 8 {
        '8'
    } else {
        '9'
    }
}

/// The decimal digits of `n`, most significant first, without leading zeros.
pub open spec fn decimal_digits(n: nat) -> Seq<char>
    decreases n,
{
    if n < 10 {
        seq![digit_char(n)]
    } else {
        decimal_digits(n / 10).push(digit_char(n % 10))
    }
}

/// `n` as a JSON number: its decimal digits, behind a minus sign where it is
/// negative.
pub open spec fn decimal_text(n: int) -> Seq<char> {
    if n < 0 {
        seq!['-'] + decimal_digits((-n) as nat)
    } else {
        decimal_digits(n as nat)
    }
}

fn digit_text(digit: u64) -> (text: &'static str)
    requires
        digit < 10,
    ensures
        text@ == seq![digit_char(digit as nat)],
{
    proof {
        reveal_strlit("0");
        reveal_strlit("1");
        reveal_strlit("2");
        reveal_strlit("3");
        reveal_strlit("4");
        reveal_strlit("5");
        reveal_strlit("6");
        reveal_strlit("7");
        reveal_strlit("8");
        reveal_strlit("9");
    }
    let text = if digit == 0 {
        "0"
    } else if digit == 1 {
        "1"
    } else if digit == 2 {
        "2"
    } else if digit == 3 {
        "3"
    } else if digit == 4 {
        "4"
    } else if digit == 5 {
        "5"
    } else if digit == 6 {
        "6"
    } else if digit == 7 {
        "7"
    } else if digit == 8 {
        "8"
    } else {
        "9"
    };
    assert(text@ =~= seq![digit_char(digit as nat)]);
    text
}

/// Writes `n` as a JSON number.
pub fn decimal(n: i64) -> (text: String)
    ensures
        text@ == decimal_text(n as int),
{
    let magnitude: u64 = if n < 0 {
        (-(n + 1)) as u64 + 1
    } else {
        n as u64
    };
    let mut digits = String::from_str(digit_text(magnitude % 10));
    let mut rest: u64 = magnitude / 10;
    while rest > 0
        invariant
            decimal_digits(magnitude as nat) == if rest > 0 {
                decimal_digits(rest as nat) + digits@
            } else {
                digits@
            },
        decreases rest,
    {
        let longer = String::from_str(digit_text(rest % 10)).concat(digits.as_str());
        assert(decimal_digits(rest as nat) + digits@ =~= if rest / 10 > 0 {
            decimal_digits((rest / 10) as nat) + longer@
        } else {
            longer@
        });
        digits = longer;
        rest = rest / 10;
    }
    if n < 0 {
        proof {
            reveal_strlit("-");
            assert("-"@ =~= seq!['-']);
        }
        String::from_str("-").concat(digits.as_str())
    } else {
        digits
    }
}

/// The wire form made of a timestamp in microseconds since the epoch, the
/// payload as JSON text, the request identifier and the category, these two
/// as JSON string literals.
pub open spec fn wire_text(
    time: i64,
    record: Seq<char>,
    request_id: Option<Seq<char>>,
    event_type: Seq<char>,
) -> Seq<char> {
    "{\"_timestamp\":"@ + decimal_text(time as int) + ",\"record\":"@ + record + match request_id {
        Some(id) => ",\"requestId\":"@ + id,
        None => Seq::empty(),
    } + ",\"type\":"@ + event_type + "}"@
}

/// Assembles a wire form from its parts. `record` is JSON text; `request_id`
/// and `event_type` are JSON string literals, quotes included.
pub fn assemble(time: i64, record: &str, request_id: Option<&str>, event_type: &str) -> (wire:
    String)
    ensures
        wire@ == wire_text(
            time,
            record@,
            match request_id {
                Some(id) => Some(id@),
                None => None,
            },
            event_type@,
        ),
{
    let mut wire = String::from_str("{\"_timestamp\":");
    let timestamp = decimal(time);
    wire.append(timestamp.as_str());
    wire.append(",\"record\":");
    wire.append(record);
    let ghost before = wire@;
    match request_id {
        Some(id) => {
            wire.append(",\"requestId\":");
            wire.append(id);
            assert(wire@ =~= before + (",\"requestId\":"@ + id@));
        },
        None => {
            assert(wire@ =~= before + Seq::<char>::empty());
        },
    }
    wire.append(",\"type\":");
    wire.append(event_type);
    wire.append("}");
    wire
}

} // verus!
