//! Text for the diagnostic rendering of events: decimal numbers and the
//! layouts that the event types share.

use crate::time::Timestamp;
use vstd::prelude::*;
use vstd::string::StringExecFns;

verus! {

/// The character that stands for one decimal digit.
pub open spec fn digit_char(d: int) -> char
    recommends
        0 <= d < 10,
{
    if d == 0 {
        '0'
    } else if d == 1 {
        '1'
    } else if d == 2 {
        '2'
    } else if d == 3 {
        '3'
    } else if d == 4 {
        '4'
    } else if d == 5 {
        '5'
    } else if d == 6 {
        '6'
    } else if d == 7 {
        '7'
    } else if d == 8 {
        '8'
    } else {
        '9'
    }
}

/// A natural number in decimal, most significant digit first, without
/// leading zeros.
pub open spec fn natural(n: nat) -> Seq<char>
    decreases n,
{
    if n < 10 {
        seq![digit_char(n as int)]
    } else {
        natural(n / 10).push(digit_char((n % 10) as int))
    }
}

/// An integer in decimal, with a minus sign in front where it is negative.
pub open spec fn decimal(n: int) -> Seq<char> {
    if n < 0 {
        seq!['-'] + natural((-n) as nat)
    } else {
        natural(n as nat)
    }
}

/// A timestamp, both parts in decimal.
pub open spec fn timestamp_text(t: Timestamp) -> Seq<char> {
    "Timestamp { sec: "@ + decimal(t.sec as int) + ", usec: "@ + decimal(t.usec as int) + " }"@
}

/// An event of a known class: the type's name, the timestamp, the kind by
/// the name of its type and its code, and the value.
pub open spec fn typed_event_text(
    name: Seq<char>,
    kind_name: Seq<char>,
    time: Timestamp,
    code: u16,
    value: i32,
) -> Seq<char> {
    name + " { time: "@ + timestamp_text(time) + ", kind: "@ + kind_name + "("@ + decimal(
        code as int,
    ) + "), value: "@ + decimal(value as int) + " }"@
}

/// An event of an unknown class: the timestamp, the raw type tag, the raw
/// code and the value.
pub open spec fn other_event_text(time: Timestamp, type_tag: u16, code: u16, value: i32) -> Seq<
    char,
> {
    "OtherEvent { time: "@ + timestamp_text(time) + ", type: "@ + decimal(type_tag as int)
        + ", code: "@ + decimal(code as int) + ", value: "@ + decimal(value as int) + " }"@
}

fn digit_text(d: u64) -> (s: &'static str)
    requires
        d < 10,
    ensures
        s@ == seq![digit_char(d as int)],
{
    proof {
        reveal_strlit("0");
        reveal_strlit("1");
        reveal_strlit("2");
        reveal_strlit("3");
        reveal_strlit("4");
        reveal_strlit("5");
        reveal_strlit("6");
        reveal_strlit("7");
        reveal_strlit("8");
        reveal_strlit("9");
    }
    let s = if d == 0 {
        "0"
    } else if d == 1 {
        "1"
    } else if d == 2 {
        "2"
    } else if d == 3 {
        "3"
    } else if d == 4 {
        "4"
    } else if d == 5 {
        "5"
    } else if d == 6 {
        "6"
    } else if d == 7 {
        "7"
    } else if d == 8 {
        "8"
    } else {
        "9"
    };
    assert(s@ =~= seq![digit_char(d as int)]);
    s
}

/// Appends a natural number in decimal.
pub fn push_natural(out: &mut String, n: u64)
    ensures
        final(out)@ == old(out)@ + natural(n as nat),
    decreases n,
{
    if n >= 10 {
        push_natural(out, n / 10);
    }
    out.append(digit_text(n % 10));
    proof {
        let digit = seq![digit_char((n % 10) as int)];
        if n >= 10 {
            assert(natural(n as nat) =~= natural((n / 10) as nat) + digit);
            assert(out@ =~= old(out)@ + natural(n as nat));
        } else {
            assert(natural(n as nat) =~= digit);
        }
    }
}

/// Appends an integer in decimal.
pub fn push_decimal(out: &mut String, n: i64)
    ensures
        final(out)@ == old(out)@ + decimal(n as int),
{
    if n < 0 {
        let magnitude: u64 = if n == i64::MIN {
            0x8000_0000_0000_0000u64
        } else {
            (-n) as u64
        };
        out.append("-");
        push_natural(out, magnitude);
        proof {
            reveal_strlit("-");
            assert("-"@ =~= seq!['-']);
            assert(out@ =~= old(out)@ + decimal(n as int));
        }
    } else {
        push_natural(out, n as u64);
    }
}

/// Appends a timestamp.
pub fn push_timestamp(out: &mut String, t: Timestamp)
    ensures
        final(out)@ == old(out)@ + timestamp_text(t),
{
    out.append("Timestamp { sec: ");
    push_decimal(out, t.sec);
    out.append(", usec: ");
    push_decimal(out, t.usec);
    out.append(" }");
    assert(out@ =~= old(out)@ + timestamp_text(t));
}

/// Renders an event of a known class.
pub fn typed_event_string(
    name: &str,
    kind_name: &str,
    time: Timestamp,
    code: u16,
    value: i32,
) -> (s: String)
    ensures
        s@ == typed_event_text(name@, kind_name@, time, code, value),
{
    let mut out = String::from_str(name);
    out.append(" { time: ");
    push_timestamp(&mut out, time);
    out.append(", kind: ");
    out.append(kind_name);
    out.append("(");
    push_natural(&mut out, code as u64);
    out.append("), value: ");
    push_decimal(&mut out, value as i64);
    out.append(" }");
    assert(out@ =~= typed_event_text(name@, kind_name@, time, code, value));
    out
}

/// Renders an event of an unknown class.
pub fn other_event_string(time: Timestamp, type_tag: u16, code: u16, value: i32) -> (s: String)
    ensures
        s@ == other_event_text(time, type_tag, code, value),
{
    let mut out = String::from_str("OtherEvent { time: ");
    push_timestamp(&mut out, time);
    out.append(", type: ");
    push_natural(&mut out, type_tag as u64);
    out.append(", code: ");
    push_natural(&mut out, code as u64);
    out.append(", value: ");
    push_decimal(&mut out, value as i64);
    out.append(" }");
    assert(out@ =~= other_event_text(time, type_tag, code, value));
    out
}

} // verus!
