//! Error taxonomy of the codec.
//!
//! Every decode failure is terminal for that single call: no partial value is
//! ever returned. Encoding fails only on the sentinel default variant of a
//! union, which carries no wire tag.

use vstd::prelude::*;

verus! {

/// The primitive kind a field was expected to have, reported when a payload
/// carries a value of the wrong shape.
#[derive(Clone, Copy, Debug, PartialEq, Eq, Structural)]
pub enum FieldKind {
    /// A 64-bit signed integer.
    Int,
    /// A boolean.
    Bool,
    /// A UTF-8 string.
    Str,
    /// A sequence of values.
    Arr,
    /// A nested record or union object.
    Obj,
}

/// Why a decode call failed.
#[derive(Debug, PartialEq, Eq)]
pub enum DecodeError {
    /// The input text is not a JSON document the codec accepts.
    InvalidJson,
    /// The discriminator field is absent, is not a string, the input is not
    /// an object, or the tag names no variant of the expected union.
    UnknownOrMissingTag,
    /// A required field is absent from the payload; carries the field name.
    MissingField(String),
    /// A field is present with a value of the wrong kind; carries the field
    /// name and the kind the schema expects.
    TypeMismatch(String, FieldKind),
}

/// Why an encode call failed.
#[derive(Clone, Copy, Debug, PartialEq, Eq, Structural)]
pub enum EncodeError {
    /// The value is the sentinel default variant of a union, for which no
    /// wire tag exists.
    UndefinedVariant,
}

/// Mathematical model of a [`DecodeError`]: field names as character
/// sequences.
pub enum DecodeErrView {
    InvalidJson,
    UnknownOrMissingTag,
    MissingField(Seq<char>),
    TypeMismatch(Seq<char>, FieldKind),
}

impl DeepView for DecodeError {
    type V = DecodeErrView;

    open spec fn deep_view(&self) -> DecodeErrView {
        match self {
            DecodeError::InvalidJson => DecodeErrView::InvalidJson,
            DecodeError::UnknownOrMissingTag => DecodeErrView::UnknownOrMissingTag,
            DecodeError::MissingField(name) => DecodeErrView::MissingField(name@),
            DecodeError::TypeMismatch(name, kind) => DecodeErrView::TypeMismatch(name@, *kind),
        }
    }
}

/// The model of a decode result: the decoded value's model, or the error's.
pub open spec fn res_view<T: DeepView>(r: Result<T, DecodeError>) -> Result<T::V, DecodeErrView> {
    match r {
        Ok(t) => Ok(t.deep_view()),
        Err(e) => Err(e.deep_view()),
    }
}

} // verus!
