//! Loosely typed upstream values and the rule that reads a boolean from one.

use vstd::prelude::*;
use crate::text::same_text;

verus! {

/// A value as the upstream service sent it, before any field has a type.
///
/// Upstream encodes one and the same field differently from call to call, so a
/// record first arrives as values of this kind and is normalized afterwards.
#[derive(Debug, Clone)]
pub enum RawValue {
    /// The explicit null.
    Null,
    /// A boolean proper.
    Bool(bool),
    /// A number that is an integer of the signed 64-bit range.
    Integer(i64),
    /// Any other number, one with a fraction or beyond the signed 64-bit range.
    Real {
        /// Its whole part: cut toward zero and kept within the 64-bit range.
        whole: i64,
        /// Whether the number itself is zero, which its whole part alone
        /// does not tell: a half has the whole part zero and is not zero.
        is_zero: bool,
    },
    /// A string.
    Text(String),
    /// A list, whatever it holds.
    Array,
    /// A record, whatever it holds.
    Object,
}

/// Why a raw value could not be normalized.
#[derive(Debug, Clone, Copy, PartialEq, Eq, Structural)]
pub enum NormalizeError {
    /// A list or a record stood where a boolean belongs.
    NotBoolean,
    /// A value stood for a timestamp and denotes none.
    MalformedTimestamp,
    /// A member count is no integer, is negative or does not fit.
    MalformedCount,
}

/// What an operator reads of a normalization failure.
pub open spec fn normalize_error_text(e: NormalizeError) -> Seq<char> {
    match e {
        NormalizeError::NotBoolean => "Wrong type, expected boolean"@,
        NormalizeError::MalformedTimestamp => "expected a timestamp"@,
        NormalizeError::MalformedCount => "expected a member count"@,
    }
}

impl NormalizeError {
    /// The operator-facing text of this failure.
    pub fn message(&self) -> (r: String)
        ensures
            r@ == normalize_error_text(*self),
    {
        match self {
            NormalizeError::NotBoolean => String::from_str("Wrong type, expected boolean"),
            NormalizeError::MalformedTimestamp => String::from_str("expected a timestamp"),
            NormalizeError::MalformedCount => String::from_str("expected a member count"),
        }
    }
}

/// Whether a text counts as false: `0`, the empty text, `false` and `FALSE`.
pub open spec fn falsy_text(s: Seq<char>) -> bool {
    s == "0"@ || s == ""@ || s == "false"@ || s == "FALSE"@
}

/// The boolean that a raw value stands for.
///
/// Booleans stand for themselves, null for false, a number of either kind for
/// whether it is not zero, and a text for true unless it is one of the four
/// falsy texts. Only a list and a record stand for no boolean.
pub open spec fn truthy(v: RawValue) -> Result<bool, NormalizeError> {
    match v {
        RawValue::Null => Ok(false),
        RawValue::Bool(b) => Ok(b),
        RawValue::Integer(i) => Ok(i != 0),
        RawValue::Real { whole, is_zero } => Ok(!is_zero),
        RawValue::Text(s) => Ok(!falsy_text(s@)),
        RawValue::Array => Err(NormalizeError::NotBoolean),
        RawValue::Object => Err(NormalizeError::NotBoolean),
    }
}

/// The boolean of a field that may be absent: `fallback` when it is.
pub open spec fn truthy_or(v: Option<RawValue>, fallback: bool) -> Result<bool, NormalizeError> {
    match v {
        Some(value) => truthy(value),
        None => Ok(fallback),
    }
}

/// Reads a boolean from a raw value, by the one rule that every boolean field
/// goes through.
pub fn boolean_truthy(value: &RawValue) -> (r: Result<bool, NormalizeError>)
    ensures
        r == truthy(*value),
{
    match value {
        RawValue::Null => Ok(false),
        RawValue::Bool(b) => Ok(*b),
        RawValue::Integer(i) => Ok(*i != 0),
        RawValue::Real { whole, is_zero } => Ok(!*is_zero),
        RawValue::Text(s) => {
            let t = s.as_str();
            let falsy = same_text(t, "0") || same_text(t, "") || same_text(t, "false") || same_text(
                t,
                "FALSE",
            );
            Ok(!falsy)
        },
        RawValue::Array => Err(NormalizeError::NotBoolean),
        RawValue::Object => Err(NormalizeError::NotBoolean),
    }
}

/// Reads a boolean field that may be absent.
pub fn boolean_truthy_or(value: &Option<RawValue>, fallback: bool) -> (r: Result<
    bool,
    NormalizeError,
>)
    ensures
        r == truthy_or(*value, fallback),
{
    match value {
        Some(v) => boolean_truthy(v),
        None => Ok(fallback),
    }
}

/// The value of a boolean field that is on unless upstream says otherwise.
pub fn default_true() -> (r: bool)
    ensures
        r,
{
    true
}

/// The truth table of boolean normalization: `true`, `"1"`, `"true"`, 1 and
/// every other number but zero are true; `false`, `"0"`, the empty text,
/// `"false"`, `"FALSE"`, 0 and null are false; and each of them is a boolean,
/// none an error.
pub proof fn lemma_boolean_truth_table(s: String, i: i64, whole: i64, is_zero: bool)
    ensures
        truthy(RawValue::Integer(i)) == Ok::<bool, NormalizeError>(i != 0),
        truthy(RawValue::Real { whole, is_zero }) == Ok::<bool, NormalizeError>(!is_zero),
        truthy(RawValue::Bool(true)) == Ok::<bool, NormalizeError>(true),
        truthy(RawValue::Bool(false)) == Ok::<bool, NormalizeError>(false),
        truthy(RawValue::Integer(1)) == Ok::<bool, NormalizeError>(true),
        truthy(RawValue::Integer(0)) == Ok::<bool, NormalizeError>(false),
        truthy(RawValue::Null) == Ok::<bool, NormalizeError>(false),
        s@ == "1"@ ==> truthy(RawValue::Text(s)) == Ok::<bool, NormalizeError>(true),
        s@ == "true"@ ==> truthy(RawValue::Text(s)) == Ok::<bool, NormalizeError>(true),
        s@ == "0"@ ==> truthy(RawValue::Text(s)) == Ok::<bool, NormalizeError>(false),
        s@ == ""@ ==> truthy(RawValue::Text(s)) == Ok::<bool, NormalizeError>(false),
        s@ == "false"@ ==> truthy(RawValue::Text(s)) == Ok::<bool, NormalizeError>(false),
        s@ == "FALSE"@ ==> truthy(RawValue::Text(s)) == Ok::<bool, NormalizeError>(false),
{
    reveal_strlit("0");
    reveal_strlit("");
    reveal_strlit("false");
    reveal_strlit("FALSE");
    reveal_strlit("1");
    reveal_strlit("true");
    assert("1"@.len() == 1 && "1"@[0] == '1');
    assert("true"@.len() == 4 && "true"@[0] == 't');
    assert("0"@.len() == 1 && "0"@[0] == '0');
    assert(""@.len() == 0);
    assert("false"@.len() == 5);
    assert("FALSE"@.len() == 5);
}

} // verus!
