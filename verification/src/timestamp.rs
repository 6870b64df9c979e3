//! Timestamps: whole seconds since the epoch, normalized from the several
//! encodings in which upstream sends them.

use vstd::prelude::*;
use crate::text::{chars_of, decimal_text, lemma_parse_decimal_text, parse_i64_chars, parsed_i64};
use crate::value::{NormalizeError, RawValue};

verus! {

/// A point in time as a count of whole seconds since the epoch.
///
/// Two timestamps are equal, and ordered, as their second counts are.
#[derive(Debug, Clone, Copy, Eq, PartialEq, Structural, Ord, Hash)]
pub struct Timestamp(pub i64);

impl View for Timestamp {
    type V = int;

    open spec fn view(&self) -> int {
        self.0 as int
    }
}

/// How many characters stand before the first full stop of a text: all of
/// them when it has none.
pub open spec fn whole_len(s: Seq<char>) -> int
    decreases s.len(),
{
    if s.len() == 0 || s[0] == '.' {
        0
    } else {
        1 + whole_len(s.skip(1))
    }
}

/// The part of a text before its first full stop.
pub open spec fn whole_part(s: Seq<char>) -> Seq<char> {
    s.take(whole_len(s))
}

/// The timestamp that a text denotes: the integer written before its first
/// full stop, whatever follows.
pub open spec fn text_timestamp(s: Seq<char>) -> Option<i64> {
    parsed_i64(whole_part(s))
}

/// The timestamp that a raw value denotes.
///
/// A number denotes its whole part; a text the integer before its first full
/// stop; anything else, and a text without such an integer, denotes none.
pub open spec fn raw_timestamp(v: RawValue) -> Result<Timestamp, NormalizeError> {
    match v {
        RawValue::Integer(i) => Ok(Timestamp(i)),
        RawValue::Real { whole, is_zero } => Ok(Timestamp(whole)),
        RawValue::Text(s) => match text_timestamp(s@) {
            Some(i) => Ok(Timestamp(i)),
            None => Err(NormalizeError::MalformedTimestamp),
        },
        _ => Err(NormalizeError::MalformedTimestamp),
    }
}

/// The timestamp of a field that may be missing: none when the field is
/// absent or null, which is no error.
pub open spec fn optional_timestamp(v: Option<RawValue>) -> Result<
    Option<Timestamp>,
    NormalizeError,
> {
    match v {
        None => Ok(None),
        Some(RawValue::Null) => Ok(None),
        Some(value) => match raw_timestamp(value) {
            Ok(t) => Ok(Some(t)),
            Err(e) => Err(e),
        },
    }
}

/// While no full stop has been met, the count goes on from where the scan is.
pub proof fn lemma_whole_len_scan(s: Seq<char>, i: int)
    requires
        0 <= i <= s.len(),
        forall|j: int| 0 <= j < i ==> s[j] != '.',
    ensures
        whole_len(s) == i + whole_len(s.skip(i)),
    decreases i,
{
    if i == 0 {
        assert(s.skip(0) =~= s);
    } else {
        let rest = s.skip(1);
        assert forall|j: int| 0 <= j < i - 1 implies rest[j] != '.' by {
            assert(rest[j] == s[j + 1]);
        }
        lemma_whole_len_scan(rest, i - 1);
        assert(rest.skip(i - 1) =~= s.skip(i));
    }
}

/// A text that writes an integer denotes that integer as its timestamp, and
/// so does the same text with a full stop and anything at all behind it: a
/// decimal is cut at the full stop, never rounded.
pub proof fn lemma_timestamp_of_decimal(n: i64, fraction: Seq<char>)
    ensures
        text_timestamp(decimal_text(n as int)) == Some(n),
        text_timestamp(decimal_text(n as int) + seq!['.'] + fraction) == Some(n),
{
    let whole = decimal_text(n as int);
    lemma_parse_decimal_text(n);
    lemma_whole_len_scan(whole, whole.len() as int);
    assert(whole.skip(whole.len() as int).len() == 0);
    assert(whole.take(whole.len() as int) =~= whole);

    let s = whole + seq!['.'] + fraction;
    assert forall|j: int| 0 <= j < whole.len() implies s[j] != '.' by {
        assert(s[j] == whole[j]);
    }
    lemma_whole_len_scan(s, whole.len() as int);
    assert(s.skip(whole.len() as int)[0] == '.');
    assert(s.take(whole.len() as int) =~= whole);
}

impl Timestamp {
    /// The timestamp of `t` seconds since the epoch.
    pub fn new(t: i64) -> (r: Timestamp)
        ensures
            r == Timestamp(t),
    {
        Timestamp(t)
    }

    /// The seconds since the epoch.
    pub fn seconds(&self) -> (r: i64)
        ensures
            r == self.0,
    {
        self.0
    }

    /// Reads the timestamp written in a text.
    pub fn from_text(s: &str) -> (r: Option<Timestamp>)
        ensures
            r == match text_timestamp(s@) {
                Some(i) => Some(Timestamp(i)),
                None => None,
            },
    {
        let v = chars_of(s);
        let n: usize = v.len();
        let mut i: usize = 0;
        while i < n && v[i] != '.'
            invariant
                n == v.len(),
                i <= n,
                forall|j: int| 0 <= j < i ==> v@[j] != '.',
            decreases n - i,
        {
            i = i + 1;
        }
        proof {
            lemma_whole_len_scan(v@, i as int);
        }
        match parse_i64_chars(&v, i) {
            Some(t) => Some(Timestamp(t)),
            None => None,
        }
    }

    /// Normalizes a raw value to a timestamp.
    pub fn from_raw(value: &RawValue) -> (r: Result<Timestamp, NormalizeError>)
        ensures
            r == raw_timestamp(*value),
    {
        match value {
            RawValue::Integer(i) => Ok(Timestamp(*i)),
            RawValue::Real { whole, is_zero } => Ok(Timestamp(*whole)),
            RawValue::Text(s) => match Timestamp::from_text(s.as_str()) {
                Some(t) => Ok(t),
                None => Err(NormalizeError::MalformedTimestamp),
            },
            _ => Err(NormalizeError::MalformedTimestamp),
        }
    }

    /// Normalizes a field that may be absent or null.
    pub fn from_optional(value: &Option<RawValue>) -> (r: Result<Option<Timestamp>, NormalizeError>)
        ensures
            r == optional_timestamp(*value),
    {
        match value {
            None => Ok(None),
            Some(RawValue::Null) => Ok(None),
            Some(v) => match Timestamp::from_raw(v) {
                Ok(t) => Ok(Some(t)),
                Err(e) => Err(e),
            },
        }
    }
}

impl From<i64> for Timestamp {
    fn from(t: i64) -> (r: Timestamp) {
        Timestamp(t)
    }
}

impl vstd::std_specs::convert::FromSpecImpl<i64> for Timestamp {
    open spec fn obeys_from_spec() -> bool {
        true
    }

    open spec fn from_spec(t: i64) -> Timestamp {
        Timestamp(t)
    }
}

impl From<u64> for Timestamp {
    fn from(t: u64) -> (r: Timestamp) {
        Timestamp(#[verifier::truncate] (t as i64))
    }
}

impl vstd::std_specs::convert::FromSpecImpl<u64> for Timestamp {
    open spec fn obeys_from_spec() -> bool {
        true
    }

    /// The count itself where it fits, and the count wrapped around otherwise.
    open spec fn from_spec(t: u64) -> Timestamp {
        Timestamp(#[verifier::truncate] (t as i64))
    }
}

impl From<Timestamp> for i64 {
    fn from(t: Timestamp) -> (r: i64) {
        t.0
    }
}

impl vstd::std_specs::convert::FromSpecImpl<Timestamp> for i64 {
    open spec fn obeys_from_spec() -> bool {
        true
    }

    open spec fn from_spec(t: Timestamp) -> i64 {
        t.0
    }
}

impl Default for Timestamp {
    fn default() -> (r: Timestamp)
        ensures
            r == Timestamp(0),
    {
        Timestamp(0)
    }
}

} // verus!
