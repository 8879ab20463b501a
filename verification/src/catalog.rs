//! What the store holds for an image, and what a listing says of it.

use vstd::prelude::*;

verus! {

/// The characters of an optional string.
pub open spec fn optional_text(text: Option<String>) -> Option<Seq<char>> {
    match text {
        Some(t) => Some(t@),
        None => None,
    }
}

/// A copy of an optional string.
pub fn clone_optional(text: &Option<String>) -> (copy: Option<String>)
    ensures
        optional_text(copy) == optional_text(*text),
{
    match text {
        Some(t) => Some(t.clone()),
        None => None,
    }
}

/// The value stored under a catalog key: where the image can be downloaded,
/// or why it cannot.
#[derive(Clone, Debug, PartialEq, Eq)]
pub enum Value {
    Success { url: String },
    Failure { error: String },
}

/// The mathematical content of a [`Value`].
pub enum ValueView {
    Success { url: Seq<char> },
    Failure { error: Seq<char> },
}

impl View for Value {
    type V = ValueView;

    open spec fn view(&self) -> ValueView {
        match *self {
            Value::Success { url } => ValueView::Success { url: url@ },
            Value::Failure { error } => ValueView::Failure { error: error@ },
        }
    }
}

/// The metadata stored beside a catalog key. An `error` marks an image that
/// cannot be downloaded.
#[derive(Clone, Debug, PartialEq, Eq)]
pub struct Metadata {
    pub release: String,
    pub arch: String,
    pub edition: Option<String>,
    pub filename: Option<String>,
    pub checksum: Option<String>,
    pub error: Option<String>,
}

/// The mathematical content of a [`Metadata`].
pub struct MetadataView {
    pub release: Seq<char>,
    pub arch: Seq<char>,
    pub edition: Option<Seq<char>>,
    pub filename: Option<Seq<char>>,
    pub checksum: Option<Seq<char>>,
    pub error: Option<Seq<char>>,
}

impl View for Metadata {
    type V = MetadataView;

    open spec fn view(&self) -> MetadataView {
        MetadataView {
            release: self.release@,
            arch: self.arch@,
            edition: optional_text(self.edition),
            filename: optional_text(self.filename),
            checksum: optional_text(self.checksum),
            error: optional_text(self.error),
        }
    }
}

/// One key of the store as a prefix scan returns it. `metadata` is `None`
/// where the store holds none for the key, or none of the expected shape.
#[derive(Clone, Debug, PartialEq, Eq)]
pub struct Key {
    pub name: String,
    pub metadata: Option<Metadata>,
}

/// The mathematical content of a [`Key`].
pub struct KeyView {
    pub name: Seq<char>,
    pub metadata: Option<MetadataView>,
}

impl View for Key {
    type V = KeyView;

    open spec fn view(&self) -> KeyView {
        KeyView {
            name: self.name@,
            metadata: match self.metadata {
                Some(m) => Some(m@),
                None => None,
            },
        }
    }
}

/// The contents of a sequence of keys.
pub open spec fn keys_view(keys: Seq<Key>) -> Seq<KeyView> {
    keys.map_values(|k: Key| k@)
}

/// Whether a listed image can be downloaded, and from which link.
#[derive(Clone, Debug, PartialEq, Eq)]
pub enum ListStatus {
    Valid { url: String, filename: String, checksum: Option<String> },
    Error { error: String },
}

/// The mathematical content of a [`ListStatus`].
pub enum ListStatusView {
    Valid { url: Seq<char>, filename: Seq<char>, checksum: Option<Seq<char>> },
    Error { error: Seq<char> },
}

impl View for ListStatus {
    type V = ListStatusView;

    open spec fn view(&self) -> ListStatusView {
        match *self {
            ListStatus::Valid { url, filename, checksum } => ListStatusView::Valid {
                url: url@,
                filename: filename@,
                checksum: optional_text(checksum),
            },
            ListStatus::Error { error } => ListStatusView::Error { error: error@ },
        }
    }
}

/// One image of a listing.
#[derive(Clone, Debug, PartialEq, Eq)]
pub struct ListEntry {
    pub release: String,
    pub edition: Option<String>,
    pub arch: String,
    pub status: ListStatus,
}

/// The mathematical content of a [`ListEntry`].
pub struct ListEntryView {
    pub release: Seq<char>,
    pub edition: Option<Seq<char>>,
    pub arch: Seq<char>,
    pub status: ListStatusView,
}

impl View for ListEntry {
    type V = ListEntryView;

    open spec fn view(&self) -> ListEntryView {
        ListEntryView {
            release: self.release@,
            edition: optional_text(self.edition),
            arch: self.arch@,
            status: self.status@,
        }
    }
}

/// The contents of a sequence of list entries.
pub open spec fn entries_view(entries: Seq<ListEntry>) -> Seq<ListEntryView> {
    entries.map_values(|e: ListEntry| e@)
}

} // verus!
