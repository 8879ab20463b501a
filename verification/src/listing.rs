//! Listing the images of one operating system.

use vstd::prelude::*;
use vstd::string::*;
use crate::catalog::{
    clone_optional, entries_view, keys_view, Key, KeyView, ListEntry, ListEntryView, ListStatus,
    ListStatusView, MetadataView,
};
use crate::reply::{refusal, Reply, ReplyView, BAD_REQUEST, NO_VALUES};
use crate::text::strip_prefix;

verus! {

/// What every key of the operating system `os` begins with.
pub open spec fn prefix_of(os: Seq<char>) -> Seq<char> {
    os + "-"@
}

/// The page that redirects to the download of the image `denom` of `os`.
pub open spec fn link_to(os: Seq<char>, denom: Seq<char>) -> Seq<char> {
    "./downloadRedirect?os="@ + os + "&denom="@ + denom
}

/// What a key of `os` is called behind the prefix of `os`.
pub open spec fn denom_in(os: Seq<char>, name: Seq<char>) -> Seq<char>
    recommends
        prefix_of(os).is_prefix_of(name),
{
    name.skip(prefix_of(os).len() as int)
}

/// The status that a listing of `os` gives the key `name` with the metadata
/// `meta`. A recorded error is passed on. Without one the image is valid and
/// linked, unless the key does not begin with the prefix of `os`: such a key
/// names no image of `os` and has no status.
pub open spec fn status_of(os: Seq<char>, name: Seq<char>, meta: MetadataView) -> Option<
    ListStatusView,
> {
    match meta.error {
        Some(error) => Some(ListStatusView::Error { error }),
        None => if prefix_of(os).is_prefix_of(name) {
            Some(
                ListStatusView::Valid {
                    url: link_to(os, denom_in(os, name)),
                    filename: match meta.filename {
                        Some(filename) => filename,
                        None => Seq::empty(),
                    },
                    checksum: meta.checksum,
                },
            )
        } else {
            None
        },
    }
}

/// The entry that a listing of `os` holds for `key`, if it holds one: a key
/// without metadata, or without a status, is left out.
pub open spec fn entry_of(os: Seq<char>, key: KeyView) -> Option<ListEntryView> {
    match key.metadata {
        None => None,
        Some(meta) => match status_of(os, key.name, meta) {
            None => None,
            Some(status) => Some(
                ListEntryView { release: meta.release, edition: meta.edition, arch: meta.arch, status },
            ),
        },
    }
}

/// The entries of a listing of `os` over `keys`, in the order of the keys.
pub open spec fn entries_of(os: Seq<char>, keys: Seq<KeyView>) -> Seq<ListEntryView> {
    keys.filter_map(|key: KeyView| entry_of(os, key))
}

/// The prefix of the keys of `os`.
pub fn key_prefix(os: &str) -> (prefix: String)
    ensures
        prefix@ == prefix_of(os@),
{
    String::from_str(os).concat("-")
}

/// The link to the page that redirects to the download of `denom` of `os`.
pub fn redirect_link(os: &str, denom: &str) -> (url: String)
    ensures
        url@ == link_to(os@, denom@),
{
    let mut url = String::from_str("./downloadRedirect?os=");
    url.append(os);
    url.append("&denom=");
    url.append(denom);
    url
}

/// The entry of a listing of `os` for `key`, if the listing holds one.
pub fn list_entry(os: &str, key: &Key) -> (entry: Option<ListEntry>)
    ensures
        entry is Some <==> entry_of(os@, key@) is Some,
        entry matches Some(e) ==> entry_of(os@, key@) == Some(e@),
{
    match &key.metadata {
        None => None,
        Some(meta) => {
            let status = match &meta.error {
                Some(error) => ListStatus::Error { error: error.clone() },
                None => {
                    let prefix = key_prefix(os);
                    match strip_prefix(key.name.as_str(), prefix.as_str()) {
                        None => {
                            return None;
                        },
                        Some(denom) => {
                            assert(denom@ =~= denom_in(os@, key.name@));
                            ListStatus::Valid {
                                url: redirect_link(os, denom),
                                filename: match &meta.filename {
                                    Some(filename) => filename.clone(),
                                    None => String::new(),
                                },
                                checksum: clone_optional(&meta.checksum),
                            }
                        },
                    }
                },
            };
            Some(
                ListEntry {
                    release: meta.release.clone(),
                    edition: clone_optional(&meta.edition),
                    arch: meta.arch.clone(),
                    status,
                },
            )
        },
    }
}

/// The keys that a scan for the images of `os` returned.
#[derive(Clone, Debug, PartialEq, Eq)]
pub struct List {
    pub keys: Vec<Key>,
    pub os: String,
}

impl List {
    /// The entries of the listing: one for each key that has an entry, in the
    /// order of the keys.
    pub fn entries(&self) -> (entries: Vec<ListEntry>)
        ensures
            entries_view(entries@) == entries_of(self.os@, keys_view(self.keys@)),
    {
        let ghost os = self.os@;
        let ghost keys = keys_view(self.keys@);
        let ghost pick = |key: KeyView| entry_of(os, key);
        let mut entries: Vec<ListEntry> = Vec::new();
        let mut i: usize = 0;
        while i < self.keys.len()
            invariant
                i <= self.keys.len(),
                os == self.os@,
                keys == keys_view(self.keys@),
                pick == |key: KeyView| entry_of(os, key),
                entries_view(entries@) == keys.take(i as int).filter_map(pick),
            decreases self.keys.len() - i,
        {
            let ghost before = entries_view(entries@);
            proof {
                Seq::lemma_filter_map_take_succ(keys, pick, i as int);
            }
            match list_entry(self.os.as_str(), &self.keys[i]) {
                Some(entry) => {
                    entries.push(entry);
                },
                None => {},
            }
            i += 1;
        }
        assert(keys.take(i as int) =~= keys);
        entries
    }
}

/// The query of a request for a listing.
#[derive(Clone, Debug, PartialEq, Eq)]
pub struct ListParameters {
    pub os: String,
}

/// The mathematical content of a [`ListParameters`].
pub struct ListParametersView {
    pub os: Seq<char>,
}

impl View for ListParameters {
    type V = ListParametersView;

    open spec fn view(&self) -> ListParametersView {
        ListParametersView { os: self.os@ }
    }
}

/// The contents of an optional query for a listing.
pub open spec fn optional_list_parameters(params: Option<ListParameters>) -> Option<
    ListParametersView,
> {
    match params {
        Some(p) => Some(p@),
        None => None,
    }
}

/// A scan to ask of the store on behalf of a request for a listing: the keys
/// of `os` are those that begin with `prefix`.
#[derive(Clone, Debug, PartialEq, Eq)]
pub struct Scan {
    pub os: String,
    pub prefix: String,
}

/// The mathematical content of a [`Scan`].
pub struct ScanView {
    pub os: Seq<char>,
    pub prefix: Seq<char>,
}

impl View for Scan {
    type V = ScanView;

    open spec fn view(&self) -> ScanView {
        ScanView { os: self.os@, prefix: self.prefix@ }
    }
}

/// The contents of the first step of a request for a listing.
pub open spec fn list_step_view(step: Result<Scan, Reply>) -> Result<ScanView, ReplyView> {
    match step {
        Ok(scan) => Ok(scan@),
        Err(reply) => Err(reply@),
    }
}

/// The contents of what a scan returned, `None` where it failed.
pub open spec fn optional_keys(found: Option<Vec<Key>>) -> Option<Seq<KeyView>> {
    match found {
        Some(keys) => Some(keys_view(keys@)),
        None => None,
    }
}

/// The first step of a request for a listing. With a query that names an
/// operating system it is `Ok` with the scan to ask of the store. A query
/// that could not be read (`None`), or that names none, is refused, and the
/// store left alone.
pub open spec fn list_step(params: Option<ListParametersView>) -> Result<ScanView, ReplyView> {
    match params {
        Some(p) => if p.os.len() > 0 {
            Ok(ScanView { os: p.os, prefix: prefix_of(p.os) })
        } else {
            Err(refusal(BAD_REQUEST@))
        },
        None => Err(refusal(BAD_REQUEST@)),
    }
}

/// The answer to a request for a listing of `os`, given what the scan found
/// (`None` where it failed): the entries where there are any, a refusal where
/// there are none.
pub open spec fn list_reply(os: Seq<char>, found: Option<Seq<KeyView>>) -> ReplyView {
    match found {
        Some(keys) => if entries_of(os, keys).len() > 0 {
            ReplyView::Listing { entries: entries_of(os, keys) }
        } else {
            refusal(NO_VALUES@)
        },
        None => refusal(NO_VALUES@),
    }
}

/// The first step of a request for a listing: the scan to ask of the store,
/// or the refusal of a query that names no operating system.
pub fn list(params: Option<ListParameters>) -> (step: Result<Scan, Reply>)
    ensures
        list_step_view(step) == list_step(optional_list_parameters(params)),
        params is None ==> list_step_view(step) == Err::<ScanView, ReplyView>(
            refusal(BAD_REQUEST@),
        ),
{
    match params {
        Some(p) => {
            if p.os.as_str().is_empty() {
                Err(Reply::refuse(BAD_REQUEST))
            } else {
                let prefix = key_prefix(p.os.as_str());
                Ok(Scan { os: p.os, prefix })
            }
        },
        None => Err(Reply::refuse(BAD_REQUEST)),
    }
}

/// The second step of a request for a listing of `os`: the answer, given the
/// keys that the scan returned, or `None` where it failed.
pub fn list_found(os: &str, found: Option<Vec<Key>>) -> (reply: Reply)
    ensures
        reply@ == list_reply(os@, optional_keys(found)),
        found matches Some(keys) && keys@.len() == 0 ==> reply@ == refusal(NO_VALUES@),
        reply@.status() == 200 || reply@.status() == 400,
{
    match found {
        Some(keys) => {
            let list = List { keys, os: String::from_str(os) };
            let entries = list.entries();
            if entries.len() == 0 {
                Reply::refuse(NO_VALUES)
            } else {
                Reply::Listing { entries }
            }
        },
        None => Reply::refuse(NO_VALUES),
    }
}

} // verus!
