//! What can go wrong while an event is handled.

use vstd::prelude::*;
use vstd::string::*;

use crate::text::concat;

verus! {

#[derive(Debug)]
pub enum HandlerError {
    /// The client no longer listens.
    ClientClosed,
    /// A text is no id or URI of the item that it should name.
    InvalidId,
    /// A link leads to an item of a type that cannot be opened.
    UnsupportedLinkType(String),
    /// The clipboard could not be read, for the reason given.
    Clipboard(String),
    /// A text could not be put into the clipboard, for the reason given.
    Copy(String),
    /// The handler of a window, a page or a popup failed, for the reason given.
    Window(String),
}

/// What an error says.
pub enum ErrorView {
    ClientClosed,
    InvalidId,
    UnsupportedLinkType(Seq<char>),
    Clipboard(Seq<char>),
    Copy(Seq<char>),
    Window(Seq<char>),
}

impl View for HandlerError {
    type V = ErrorView;

    open spec fn view(&self) -> ErrorView {
        match *self {
            HandlerError::ClientClosed => ErrorView::ClientClosed,
            HandlerError::InvalidId => ErrorView::InvalidId,
            HandlerError::UnsupportedLinkType(kind) => ErrorView::UnsupportedLinkType(kind@),
            HandlerError::Clipboard(reason) => ErrorView::Clipboard(reason@),
            HandlerError::Copy(reason) => ErrorView::Copy(reason@),
            HandlerError::Window(reason) => ErrorView::Window(reason@),
        }
    }
}

impl ErrorView {
    /// What the user is told. Where something else failed, its own words are handed on.
    pub open spec fn text(self) -> Seq<char> {
        match self {
            ErrorView::ClientClosed => "sending on a closed channel"@,
            ErrorView::InvalidId => "InvalidId"@,
            ErrorView::UnsupportedLinkType(kind) => "unsupported Spotify type "@ + kind + "!"@,
            ErrorView::Clipboard(reason) => "get clipboard's content: "@ + reason,
            ErrorView::Copy(reason) => reason,
            ErrorView::Window(reason) => reason,
        }
    }
}

impl HandlerError {
    /// What the user is told.
    pub fn message(&self) -> (r: String)
        ensures
            r@ == self@.text(),
            *self matches HandlerError::UnsupportedLinkType(kind) ==> r@
                == "unsupported Spotify type "@ + kind@ + "!"@,
    {
        match self {
            HandlerError::ClientClosed => "sending on a closed channel".to_owned(),
            HandlerError::InvalidId => "InvalidId".to_owned(),
            HandlerError::UnsupportedLinkType(kind) => {
                let start = concat("unsupported Spotify type ", kind.as_str());
                concat(start.as_str(), "!")
            },
            HandlerError::Clipboard(reason) => {
                concat("get clipboard's content: ", reason.as_str())
            },
            HandlerError::Copy(reason) => reason.clone(),
            HandlerError::Window(reason) => reason.clone(),
        }
    }
}

} // verus!
