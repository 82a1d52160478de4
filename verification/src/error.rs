//! What can go wrong while a page is being augmented.

use vstd::prelude::*;

verus! {

/// The failures the engine tells apart.
#[derive(Clone, Debug, PartialEq, Eq)]
pub enum Error {
    /// The macro source is malformed; carries the parser's message.
    SynParsing(String),
    /// The host rejected a selector or a piece of markup.
    Syntax(String),
    /// The host rejected an element or attribute name.
    InvalidCharacter(String),
    /// The host refused to replace a child node.
    ReplaceChild(String),
    /// A container that must hold a diagram holds no node at all.
    NodeNotFound,
    /// The extension runtime answered with something that is no string.
    UnexpectedType,
}

/// The classes of failure, by how far their damage reaches.
#[derive(Clone, Copy, Debug, PartialEq, Eq, Structural)]
pub enum ErrorKind {
    /// Malformed macro source: expected, costs one widget its diagram.
    Parse,
    /// The host refused an operation: costs the widget under construction.
    Dom,
    /// A widget's own nodes were tampered with: ends that widget's updates.
    StructuralInvariant,
    /// An asset could not be located: ends the whole pass.
    AssetResolution,
}

impl Error {
    /// The class of this failure.
    pub open spec fn kind_of(self) -> ErrorKind {
        match self {
            Error::SynParsing(_) => ErrorKind::Parse,
            Error::Syntax(_) => ErrorKind::Dom,
            Error::InvalidCharacter(_) => ErrorKind::Dom,
            Error::ReplaceChild(_) => ErrorKind::Dom,
            Error::NodeNotFound => ErrorKind::StructuralInvariant,
            Error::UnexpectedType => ErrorKind::AssetResolution,
        }
    }

    /// The class of this failure.
    pub fn kind(&self) -> (kind: ErrorKind)
        ensures
            kind == self.kind_of(),
    {
        match self {
            Error::SynParsing(_) => ErrorKind::Parse,
            Error::Syntax(_) => ErrorKind::Dom,
            Error::InvalidCharacter(_) => ErrorKind::Dom,
            Error::ReplaceChild(_) => ErrorKind::Dom,
            Error::NodeNotFound => ErrorKind::StructuralInvariant,
            Error::UnexpectedType => ErrorKind::AssetResolution,
        }
    }
}

/// The mathematical content of an [`Error`].
pub enum ErrorView {
    SynParsing(Seq<char>),
    Syntax(Seq<char>),
    InvalidCharacter(Seq<char>),
    ReplaceChild(Seq<char>),
    NodeNotFound,
    UnexpectedType,
}

impl View for Error {
    type V = ErrorView;

    open spec fn view(&self) -> ErrorView {
        match self {
            Error::SynParsing(message) => ErrorView::SynParsing(message@),
            Error::Syntax(message) => ErrorView::Syntax(message@),
            Error::InvalidCharacter(message) => ErrorView::InvalidCharacter(message@),
            Error::ReplaceChild(message) => ErrorView::ReplaceChild(message@),
            Error::NodeNotFound => ErrorView::NodeNotFound,
            Error::UnexpectedType => ErrorView::UnexpectedType,
        }
    }
}

} // verus!
