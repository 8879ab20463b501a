//! What holds of the two endpoints taken together.

use vstd::prelude::*;
use crate::catalog::{KeyView, ListEntryView, ListStatusView, ValueView};
use crate::download::{download_reply, download_step, key_of, parsed_url, DownloadParametersView};
use crate::listing::{
    denom_in, entries_of, entry_of, link_to, list_reply, list_step, prefix_of, ListParametersView,
};
use crate::reply::{refusal, ReplyView, BAD_REQUEST, NO_VALUES};

verus! {

/// What a read of a store with the values `values` returns under `key`.
pub open spec fn read(values: Map<Seq<char>, ValueView>, key: Seq<char>) -> Option<ValueView> {
    if values.dom().contains(key) {
        Some(values[key])
    } else {
        None
    }
}

/// The answer to a request for a download over a store with the values
/// `values`: the refusal of the first step, or else the answer of the second
/// step to what a read under the key of the first step returns.
pub open spec fn serve_download(
    values: Map<Seq<char>, ValueView>,
    params: Option<DownloadParametersView>,
) -> ReplyView {
    match download_step(params) {
        Ok(key) => download_reply(read(values, key)),
        Err(reply) => reply,
    }
}

/// The answer to a request for a listing where a scan of the store returns
/// `found` (`None` where it fails): the refusal of the first step, or else
/// the answer of the second step to `found`.
pub open spec fn serve_list(
    found: Option<Seq<KeyView>>,
    params: Option<ListParametersView>,
) -> ReplyView {
    match list_step(params) {
        Ok(scan) => list_reply(scan.os, found),
        Err(reply) => reply,
    }
}

/// Mapping and filtering a concatenation is the same as doing so to its
/// parts.
pub proof fn lemma_filter_map_concat<A, B>(a: Seq<A>, b: Seq<A>, f: spec_fn(A) -> Option<B>)
    ensures
        (a + b).filter_map(f) == a.filter_map(f) + b.filter_map(f),
    decreases b.len(),
{
    if b.len() > 0 {
        assert((a + b).drop_last() =~= a + b.drop_last());
        lemma_filter_map_concat(a, b.drop_last(), f);
        match f(b.last()) {
            Some(x) => {
                let head = a.filter_map(f);
                let tail = b.drop_last().filter_map(f);
                assert(head + (tail + seq![x]) =~= (head + tail) + seq![x]);
            },
            None => {},
        }
    }
}

/// Where the store holds a download address under the key of `os` and
/// `denom`, and the address is an absolute URL, a request for that download
/// is answered with a redirect to exactly that URL.
pub proof fn lemma_success_redirects(
    values: Map<Seq<char>, ValueView>,
    os: Seq<char>,
    denom: Seq<char>,
    url: Seq<char>,
)
    requires
        os.len() > 0,
        denom.len() > 0,
        read(values, key_of(os, denom)) == Some(ValueView::Success { url }),
        parsed_url(url) is Some,
    ensures
        serve_download(values, Some(DownloadParametersView { os, denom }))
            == (ReplyView::Redirect { location: parsed_url(url)->0 }),
{
}

/// Where the store records a failure under the key of `os` and `denom`, a
/// request for that download is refused with status 400 and the recorded
/// message.
pub proof fn lemma_failure_is_reported(
    values: Map<Seq<char>, ValueView>,
    os: Seq<char>,
    denom: Seq<char>,
    error: Seq<char>,
)
    requires
        os.len() > 0,
        denom.len() > 0,
        read(values, key_of(os, denom)) == Some(ValueView::Failure { error }),
    ensures
        serve_download(values, Some(DownloadParametersView { os, denom }))
            == (ReplyView::Error { status: 400, message: error }),
{
}

/// Where the scan for an operating system returns no key, or fails, the
/// request for its listing is refused with status 400.
pub proof fn lemma_no_keys_no_listing(found: Option<Seq<KeyView>>, os: Seq<char>)
    requires
        os.len() > 0,
        found matches Some(keys) ==> keys.len() == 0,
    ensures
        list_reply(os, found) == refusal(NO_VALUES@),
        serve_list(found, Some(ListParametersView { os })) == refusal(NO_VALUES@),
        refusal(NO_VALUES@).status() == 400,
{
}

/// Of the keys that begin with the prefix of `os`, the listing of `os` leaves
/// out exactly those without metadata.
pub proof fn lemma_keys_with_metadata_are_listed(os: Seq<char>, key: KeyView)
    requires
        prefix_of(os).is_prefix_of(key.name),
    ensures
        entry_of(os, key) is Some <==> key.metadata is Some,
{
}

/// Where none of the keys that the scan returned has an entry, the request
/// for the listing is refused as if the scan had returned no key.
pub proof fn lemma_no_entries_no_listing(os: Seq<char>, keys: Seq<KeyView>)
    requires
        forall|i: int| 0 <= i < keys.len() ==> entry_of(os, #[trigger] keys[i]) is None,
    ensures
        entries_of(os, keys).len() == 0,
        list_reply(os, Some(keys)) == refusal(NO_VALUES@),
    decreases keys.len(),
{
    if keys.len() > 0 {
        let front = keys.drop_last();
        assert forall|i: int| 0 <= i < front.len() implies entry_of(os, #[trigger] front[i])
            is None by {
            assert(front[i] == keys[i]);
        }
        lemma_no_entries_no_listing(os, front);
    }
}

/// A key of `os` that has metadata without a recorded error is listed as
/// valid. Its entry stands in the listing behind the entries of the keys
/// before it, and links to the redirect for `os` and for what follows the
/// prefix of `os` in the key's name.
pub proof fn lemma_valid_key_is_listed(os: Seq<char>, keys: Seq<KeyView>, i: int)
    requires
        0 <= i < keys.len(),
        prefix_of(os).is_prefix_of(keys[i].name),
        keys[i].metadata matches Some(meta) && meta.error is None,
    ensures
        keys[i].name == prefix_of(os) + denom_in(os, keys[i].name),
        list_reply(os, Some(keys)) == (ReplyView::Listing { entries: entries_of(os, keys) }),
        ({
            let at = entries_of(os, keys.take(i)).len() as int;
            let entry = entries_of(os, keys)[at];
            &&& at < entries_of(os, keys).len()
            &&& entry_of(os, keys[i]) == Some(entry)
            &&& entry.status matches ListStatusView::Valid { url, .. }
            &&& url == link_to(os, denom_in(os, keys[i].name))
        }),
{
    let pick = |key: KeyView| entry_of(os, key);
    assert(keys =~= keys.take(i + 1) + keys.skip(i + 1));
    lemma_filter_map_concat(keys.take(i + 1), keys.skip(i + 1), pick);
    keys.lemma_filter_map_take_succ(pick, i);
}

/// The key of an image names the image again: it begins with the prefix of
/// its operating system, and what follows the prefix is the image.
pub proof fn lemma_key_names_its_image(os: Seq<char>, denom: Seq<char>)
    ensures
        prefix_of(os).is_prefix_of(key_of(os, denom)),
        denom_in(os, key_of(os, denom)) == denom,
{
    assert(key_of(os, denom).subrange(0, prefix_of(os).len() as int) =~= prefix_of(os));
    assert(key_of(os, denom).skip(prefix_of(os).len() as int) =~= denom);
}

/// A valid entry of a listing leads back to the key that it was listed from:
/// a request for the download of the operating system and the image that the
/// entry's link names is answered from what the store holds under that key.
pub proof fn lemma_link_leads_back(
    values: Map<Seq<char>, ValueView>,
    os: Seq<char>,
    key: KeyView,
    entry: ListEntryView,
)
    requires
        os.len() > 0,
        entry_of(os, key) == Some(entry),
        entry.status is Valid,
        denom_in(os, key.name).len() > 0,
    ensures
        entry.status->url == link_to(os, denom_in(os, key.name)),
        download_step(Some(DownloadParametersView { os, denom: denom_in(os, key.name) }))
            == Ok::<Seq<char>, ReplyView>(key.name),
        serve_download(values, Some(DownloadParametersView { os, denom: denom_in(os, key.name) }))
            == download_reply(read(values, key.name)),
{
    assert(key.name =~= prefix_of(os) + denom_in(os, key.name));
}

/// A request whose query could not be read is refused with status 400
/// whatever the store holds, and the store is not read.
pub proof fn lemma_unread_query_is_refused(
    values: Map<Seq<char>, ValueView>,
    found: Option<Seq<KeyView>>,
)
    ensures
        list_step(None) is Err,
        download_step(None) is Err,
        serve_list(found, None) == refusal(BAD_REQUEST@),
        serve_download(values, None) == refusal(BAD_REQUEST@),
{
}

} // verus!
