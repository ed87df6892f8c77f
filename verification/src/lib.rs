//! Decoders for SEC filing XML: an XBRL instance decoder that builds unit and
//! context dictionaries and resolves typed facts against them, plus two
//! fixed-shape form decoders (institutional holdings and insider ownership)
//! that share the same leaf-value inference and element lookup primitives.

use vstd::prelude::*;

pub mod form13f;
pub mod ownership;
pub mod text;
pub mod value;
pub mod xbrl;
pub mod xml;

verus! {

/// A failed decode. `MalformedXml` carries the XML parser's description
/// of why the text is not well-formed; `MissingElement` names a required
/// tag (or typed leaf) that a fixed-shape form decoder could not find.
#[derive(Clone, Debug, PartialEq, Eq)]
pub enum DecodeError {
    MalformedXml(String),
    MissingElement(String),
}

/// Spec-level shape of a `DecodeError`.
pub enum ErrorModel {
    MalformedXml(Seq<char>),
    MissingElement(Seq<char>),
}

impl View for DecodeError {
    type V = ErrorModel;

    open spec fn view(&self) -> ErrorModel {
        match self {
            DecodeError::MalformedXml(m) => ErrorModel::MalformedXml(m@),
            DecodeError::MissingElement(t) => ErrorModel::MissingElement(t@),
        }
    }
}

impl DecodeError {
    /// A human-readable description: the parser's message as carried, or
    /// the missing tag followed by " not found".
    pub fn reason(&self) -> (r: String)
        ensures
            self is MalformedXml ==> r@ == self->MalformedXml_0@,
            self is MissingElement ==> r@ == self->MissingElement_0@ + " not found"@,
    {
        match self {
            DecodeError::MalformedXml(m) => m.clone(),
            DecodeError::MissingElement(t) => t.clone().concat(" not found"),
        }
    }
}

/// Maps a decode result to its spec-level shape.
pub open spec fn res_view<T: View>(r: Result<T, DecodeError>) -> Result<T::V, ErrorModel> {
    match r {
        Ok(v) => Ok(v@),
        Err(e) => Err(e@),
    }
}

/// Maps an optional value to its spec-level shape.
pub open spec fn opt_model<T: View>(o: Option<T>) -> Option<T::V> {
    match o {
        Some(v) => Some(v@),
        None => None,
    }
}

} // verus!
