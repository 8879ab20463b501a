//! What the service answers.

use vstd::prelude::*;
use vstd::string::*;
use crate::catalog::{entries_view, ListEntry, ListEntryView};

verus! {

/// Sent where a required query parameter is missing or empty.
pub const BAD_REQUEST: &'static str = "Bad Request";

/// Sent where a listing would hold no image.
pub const NO_VALUES: &'static str = "No values for selected OS";

/// Sent where the store holds no readable value under the key.
pub const NO_MATCH: &'static str = "Could not find a matching entry";

/// Sent where the stored download address is no absolute URL.
pub const UNKNOWN_ERROR: &'static str = "An unknown error occurred";

/// The status of every refusal.
pub const REFUSED: u16 = 400;

/// The status of a listing.
pub const LISTED: u16 = 200;

/// The status of a redirect.
pub const FOUND: u16 = 302;

/// The answer to one request.
#[derive(Clone, Debug, PartialEq, Eq)]
pub enum Reply {
    /// Send the client on to `location`.
    Redirect { location: String },
    /// The images, in the order in which the store returned their keys.
    Listing { entries: Vec<ListEntry> },
    /// A refusal with a plain message.
    Error { status: u16, message: String },
}

/// The mathematical content of a [`Reply`].
pub enum ReplyView {
    Redirect { location: Seq<char> },
    Listing { entries: Seq<ListEntryView> },
    Error { status: u16, message: Seq<char> },
}

impl View for Reply {
    type V = ReplyView;

    open spec fn view(&self) -> ReplyView {
        match *self {
            Reply::Redirect { location } => ReplyView::Redirect { location: location@ },
            Reply::Listing { entries } => ReplyView::Listing { entries: entries_view(entries@) },
            Reply::Error { status, message } => ReplyView::Error { status, message: message@ },
        }
    }
}

/// The refusal with status 400 and the given message.
pub open spec fn refusal(message: Seq<char>) -> ReplyView {
    ReplyView::Error { status: REFUSED, message }
}

impl ReplyView {
    /// The HTTP status that goes out with the reply.
    pub open spec fn status(self) -> u16 {
        match self {
            ReplyView::Redirect { .. } => FOUND,
            ReplyView::Listing { .. } => LISTED,
            ReplyView::Error { status, .. } => status,
        }
    }
}

impl Reply {
    /// The refusal with status 400 and the given message.
    pub fn refuse(message: &str) -> (reply: Reply)
        ensures
            reply@ == refusal(message@),
    {
        Reply::Error { status: REFUSED, message: String::from_str(message) }
    }

    /// The HTTP status that goes out with the reply.
    pub fn status(&self) -> (status: u16)
        ensures
            status == self@.status(),
    {
        match self {
            Reply::Redirect { .. } => FOUND,
            Reply::Listing { .. } => LISTED,
            Reply::Error { status, .. } => *status,
        }
    }
}

} // verus!
