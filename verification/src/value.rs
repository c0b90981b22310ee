//! The untyped JSON value model delivered by the collaborator that parses a
//! request body, and its mathematical shape.

use vstd::prelude::*;

verus! {

/// The representation a JSON number carries. The numeric kinds are kept
/// apart so that re-encoding preserves the kind; floating-point values are
/// carried by their IEEE-754 bit patterns and never computed on here.
#[derive(Clone, Copy, PartialEq, Eq, Structural, Debug)]
pub enum NumberRepr {
    /// An integer in the unsigned 64-bit range.
    UInt(u64),
    /// A negative integer.
    Int(i64),
    /// The bits of a 64-bit floating-point value.
    Double(u64),
    /// The bits of a 32-bit floating-point value.
    Single(u32),
}

/// An untyped JSON value. Only the shapes the codec and the request model
/// read are carried in full: nothing here ever reads inside an object, so
/// objects are a bare marker.
pub enum JsonValue {
    Null,
    Bool(bool),
    Num(NumberRepr),
    Text(String),
    Arr(Vec<JsonValue>),
    Obj,
}

/// The mathematical shape of a `JsonValue`: strings become sequences of
/// characters; array elements are held unchanged.
pub enum JsonSpec {
    Null,
    Bool(bool),
    Num(NumberRepr),
    Text(Seq<char>),
    Arr(Seq<JsonValue>),
    Obj,
}

impl View for JsonValue {
    type V = JsonSpec;

    open spec fn view(&self) -> JsonSpec {
        match self {
            JsonValue::Null => JsonSpec::Null,
            JsonValue::Bool(b) => JsonSpec::Bool(*b),
            JsonValue::Num(n) => JsonSpec::Num(*n),
            JsonValue::Text(s) => JsonSpec::Text(s@),
            JsonValue::Arr(items) => JsonSpec::Arr(items@),
            JsonValue::Obj => JsonSpec::Obj,
        }
    }
}

} // verus!
