//! The failures a render can end in.

use vstd::prelude::*;

verus! {

/// Why a page could not be rendered.
#[derive(Debug, PartialEq, Eq)]
pub enum Error {
    /// The document could not be parsed.
    ParseError,
    /// No pin with this number.
    PinNotFound(u32),
    /// No symbol with this reference.
    SymbolNotFound(String),
    /// No symbol library with this name.
    LibraryNotFound(String),
    /// A surface, stream or file failed; the text is the cause.
    IoError(String),
    /// The theme has no preset of this kind (first) for this role (second).
    Theme(String, String),
    /// No simulation model with this name.
    SpiceModelNotFound(String),
    /// A circuit element of an unknown kind.
    UnknownCircuitElement(String),
    /// The symbol (first) has no pins in this unit (second).
    NoPinsFound(String, u32),
    /// The property (first) is missing from the element (second).
    PropertyNotFound(String, String),
    /// The document has no library entry of this name.
    LinraryNotFound(String),
    /// The output format is unknown, or known and not implemented.
    UnknownImageType(String),
    /// A symbol or a pin is turned by this many degrees, which is no multiple
    /// of 90, so that it faces none of the four directions.
    Geometry(i32),
}

impl Clone for Error {
    fn clone(&self) -> (res: Error)
        ensures
            res == *self,
    {
        match self {
            Error::ParseError => Error::ParseError,
            Error::PinNotFound(n) => Error::PinNotFound(*n),
            Error::SymbolNotFound(s) => Error::SymbolNotFound(s.clone()),
            Error::LibraryNotFound(s) => Error::LibraryNotFound(s.clone()),
            Error::IoError(s) => Error::IoError(s.clone()),
            Error::Theme(k, r) => Error::Theme(k.clone(), r.clone()),
            Error::SpiceModelNotFound(s) => Error::SpiceModelNotFound(s.clone()),
            Error::UnknownCircuitElement(s) => Error::UnknownCircuitElement(s.clone()),
            Error::NoPinsFound(s, n) => Error::NoPinsFound(s.clone(), *n),
            Error::PropertyNotFound(p, e) => Error::PropertyNotFound(p.clone(), e.clone()),
            Error::LinraryNotFound(s) => Error::LinraryNotFound(s.clone()),
            Error::UnknownImageType(s) => Error::UnknownImageType(s.clone()),
            Error::Geometry(a) => Error::Geometry(*a),
        }
    }
}

/// The mathematical content of an [`Error`].
pub enum ErrorView {
    ParseError,
    PinNotFound(u32),
    SymbolNotFound(Seq<char>),
    LibraryNotFound(Seq<char>),
    IoError(Seq<char>),
    Theme(Seq<char>, Seq<char>),
    SpiceModelNotFound(Seq<char>),
    UnknownCircuitElement(Seq<char>),
    NoPinsFound(Seq<char>, u32),
    PropertyNotFound(Seq<char>, Seq<char>),
    LinraryNotFound(Seq<char>),
    UnknownImageType(Seq<char>),
    Geometry(i32),
}

impl View for Error {
    type V = ErrorView;

    open spec fn view(&self) -> ErrorView {
        match *self {
            Error::ParseError => ErrorView::ParseError,
            Error::PinNotFound(n) => ErrorView::PinNotFound(n),
            Error::SymbolNotFound(s) => ErrorView::SymbolNotFound(s@),
            Error::LibraryNotFound(s) => ErrorView::LibraryNotFound(s@),
            Error::IoError(s) => ErrorView::IoError(s@),
            Error::Theme(k, r) => ErrorView::Theme(k@, r@),
            Error::SpiceModelNotFound(s) => ErrorView::SpiceModelNotFound(s@),
            Error::UnknownCircuitElement(s) => ErrorView::UnknownCircuitElement(s@),
            Error::NoPinsFound(s, n) => ErrorView::NoPinsFound(s@, n),
            Error::PropertyNotFound(p, e) => ErrorView::PropertyNotFound(p@, e@),
            Error::LinraryNotFound(s) => ErrorView::LinraryNotFound(s@),
            Error::UnknownImageType(s) => ErrorView::UnknownImageType(s@),
            Error::Geometry(a) => ErrorView::Geometry(a),
        }
    }
}

} // verus!
