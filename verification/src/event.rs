//! Events arriving on the change-notification channel, the decisions the
//! workflow produces, and the payload format.
//!
//! A change event carries an opaque payload: the decimal identifier of the
//! authentication request that must be resolved against durable state. The
//! parser here gives that format an exact meaning.

use vstd::prelude::*;

verus! {

/// One notification from the change channel: the topic it was published on
/// and the textual payload.
#[derive(Clone, Debug)]
pub struct ChangeEvent {
    pub topic: String,
    pub payload: String,
}

/// The outcome of one approval session.
#[derive(Clone, Copy, Debug, PartialEq, Eq, Structural)]
pub enum Decision {
    Approved,
    Denied,
    TimedOut,
}

/// The channel topic the notification consumer subscribes to.
pub fn listen_topic() -> (t: &'static str)
    ensures
        t@ == "bot_updates"@,
{
    "bot_updates"
}

/// A decimal digit.
pub open spec fn is_digit_char(c: char) -> bool {
    48 <= c as u32 && c as u32 <= 57
}

pub open spec fn all_digits(s: Seq<char>) -> bool {
    forall|i: int| 0 <= i < s.len() ==> is_digit_char(#[trigger] s[i])
}

/// The value of a non-empty digit string, most significant digit first.
pub open spec fn digits_value(s: Seq<char>) -> int
    decreases s.len(),
{
    if s.len() == 0 {
        0
    } else {
        digits_value(s.drop_last()) * 10 + (s.last() as u32 - 48)
    }
}

/// The digits of a payload, with any single leading sign removed.
pub open spec fn payload_magnitude(s: Seq<char>) -> Seq<char> {
    if s.len() > 0 && (s[0] == '+' || s[0] == '-') {
        s.subrange(1, s.len() as int)
    } else {
        s
    }
}

pub open spec fn payload_is_negative(s: Seq<char>) -> bool {
    s.len() > 0 && s[0] == '-'
}

/// The integer a payload denotes.
pub open spec fn payload_value(s: Seq<char>) -> int {
    if payload_is_negative(s) {
        -digits_value(payload_magnitude(s))
    } else {
        digits_value(payload_magnitude(s))
    }
}

/// A payload is a request identifier when it is an optional sign followed by
/// at least one decimal digit, and the denoted value fits a 32-bit signed
/// integer.
pub open spec fn valid_request_payload(s: Seq<char>) -> bool {
    &&& payload_magnitude(s).len() > 0
    &&& all_digits(payload_magnitude(s))
    &&& i32::MIN <= payload_value(s) <= i32::MAX
}

proof fn lemma_digits_value_nonneg(s: Seq<char>)
    requires
        all_digits(s),
    ensures
        digits_value(s) >= 0,
    decreases s.len(),
{
    if s.len() > 0 {
        assert(all_digits(s.drop_last())) by {
            assert(forall|i: int|
                0 <= i < s.len() - 1 ==> s.drop_last()[i] == #[trigger] s[i]);
        }
        lemma_digits_value_nonneg(s.drop_last());
    }
}

/// Parses a change-event payload as a request identifier.
///
/// Returns the denoted value exactly when the payload is an optional sign
/// followed by decimal digits and the value fits a 32-bit signed integer;
/// returns nothing otherwise.
pub fn parse_request_id(s: &str) -> (r: Option<i32>)
    ensures
        r is Some <==> valid_request_payload(s@),
        r matches Some(v) ==> v == payload_value(s@),
{
    let n = s.unicode_len();
    if n == 0 {
        return None;
    }
    let first = s.get_char(0);
    let negative = first == '-';
    let start: usize = if first == '-' || first == '+' {
        1
    } else {
        0
    };
    if start == n {
        // A bare sign has no digits.
        return None;
    }
    let ghost m = payload_magnitude(s@);
    proof {
        assert(m =~= s@.subrange(start as int, n as int));
    }
    let mut i: usize = start;
    let mut acc: u64 = 0;
    while i < n
        invariant
            start <= i <= n,
            n == s@.len(),
            m == payload_magnitude(s@),
            negative == payload_is_negative(s@),
            m == s@.subrange(start as int, n as int),
            m.len() == n - start,
            all_digits(m.subrange(0, i - start)),
            digits_value(m.subrange(0, i - start)) <= 0x8000_0000
                ==> acc == digits_value(m.subrange(0, i - start)),
            digits_value(m.subrange(0, i - start)) > 0x8000_0000 ==> acc > 0x8000_0000,
            acc <= 0x5_0000_0009,
        decreases n - i,
    {
        let c = s.get_char(i);
        let cu = c as u32;
        if cu < 48 || cu > 57 {
            proof {
                assert(m[i - start] == s@[i as int]);
                assert(!is_digit_char(m[i - start]));
                assert(!all_digits(m));
            }
            return None;
        }
        let d = (cu - 48) as u64;
        let ghost prefix = m.subrange(0, i - start);
        let ghost extended = m.subrange(0, i + 1 - start);
        proof {
            assert(extended.drop_last() =~= prefix);
            assert(extended.last() == s@[i as int]);
            lemma_digits_value_nonneg(prefix);
        }
        if acc <= 0x8000_0000 {
            acc = acc * 10 + d;
        } else {
            proof {
                assert(digits_value(extended) == digits_value(prefix) * 10 + (extended.last() as u32 - 48));
                assert(digits_value(prefix) * 10 >= digits_value(prefix)) by (nonlinear_arith)
                    requires digits_value(prefix) >= 0;
            }
        }
        i = i + 1;
    }
    proof {
        assert(m.subrange(0, i - start) =~= m);
    }
    if negative {
        if acc <= 0x8000_0000 {
            let v: i64 = -(acc as i64);
            Some(v as i32)
        } else {
            None
        }
    } else {
        if acc <= 0x7FFF_FFFF {
            Some(acc as i32)
        } else {
            None
        }
    }
}

} // verus!
