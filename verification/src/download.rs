//! Redirecting to the download of one image.

use vstd::prelude::*;
use vstd::string::*;
use crate::catalog::{optional_text, Value, ValueView};
use crate::listing::{key_prefix, prefix_of};
use crate::reply::{refusal, Reply, ReplyView, BAD_REQUEST, NO_MATCH, REFUSED, UNKNOWN_ERROR};

verus! {

/// The query of a request for a download.
#[derive(Clone, Debug, PartialEq, Eq)]
pub struct DownloadParameters {
    pub os: String,
    pub denom: String,
}

/// The mathematical content of a [`DownloadParameters`].
pub struct DownloadParametersView {
    pub os: Seq<char>,
    pub denom: Seq<char>,
}

impl View for DownloadParameters {
    type V = DownloadParametersView;

    open spec fn view(&self) -> DownloadParametersView {
        DownloadParametersView { os: self.os@, denom: self.denom@ }
    }
}

/// The contents of an optional query for a download.
pub open spec fn optional_download_parameters(params: Option<DownloadParameters>) -> Option<
    DownloadParametersView,
> {
    match params {
        Some(p) => Some(p@),
        None => None,
    }
}

/// The contents of the first step of a request for a download.
pub open spec fn download_step_view(step: Result<String, Reply>) -> Result<Seq<char>, ReplyView> {
    match step {
        Ok(key) => Ok(key@),
        Err(reply) => Err(reply@),
    }
}

/// The contents of what a read of the store returned.
pub open spec fn optional_value(found: Option<Value>) -> Option<ValueView> {
    match found {
        Some(value) => Some(value@),
        None => None,
    }
}

/// The key under which the store holds the image `denom` of `os`.
pub open spec fn key_of(os: Seq<char>, denom: Seq<char>) -> Seq<char> {
    prefix_of(os) + denom
}

/// The first step of a request for a download. With a query that names an
/// operating system and an image it is `Ok` with the key to read from the
/// store. A query that could not be read (`None`), or that leaves one of the
/// two empty, is refused, and the store left alone.
pub open spec fn download_step(params: Option<DownloadParametersView>) -> Result<
    Seq<char>,
    ReplyView,
> {
    match params {
        Some(p) => if p.os.len() > 0 && p.denom.len() > 0 {
            Ok(key_of(p.os, p.denom))
        } else {
            Err(refusal(BAD_REQUEST@))
        },
        None => Err(refusal(BAD_REQUEST@)),
    }
}

/// What `Url::parse` makes of `text`: the serialization of the absolute URL
/// that it reads from it, or `None` where it reads none.
pub uninterp spec fn parsed_url(text: Seq<char>) -> Option<Seq<char>>;

/// The answer for a stored download address, given what parsing made of it:
/// a redirect to the URL, or a refusal where there is none.
pub open spec fn redirect_to(parsed: Option<Seq<char>>) -> ReplyView {
    match parsed {
        Some(location) => ReplyView::Redirect { location },
        None => refusal(UNKNOWN_ERROR@),
    }
}

/// The answer to a request for a download, given what the store holds under
/// the key (`None` where it holds nothing readable).
pub open spec fn download_reply(found: Option<ValueView>) -> ReplyView {
    match found {
        Some(ValueView::Success { url }) => redirect_to(parsed_url(url)),
        Some(ValueView::Failure { error }) => refusal(error),
        None => refusal(NO_MATCH@),
    }
}

/// The key under which the store holds the image `denom` of `os`.
pub fn catalog_key(os: &str, denom: &str) -> (key: String)
    ensures
        key@ == key_of(os@, denom@),
{
    key_prefix(os).concat(denom)
}

/// Calls `Url::parse` of the `url` crate, as `worker` hands it on, and
/// returns the serialization of the URL that it parsed, or `None` where it
/// returned an error. The contract only names that outcome: that the same
/// text always parses alike is taken on trust, and nothing is claimed about
/// which texts parse or what their serialization looks like.
#[verifier::external_body]
fn parse_url(text: &str) -> (parsed: Option<String>)
    ensures
        optional_text(parsed) == parsed_url(text@),
{
    match worker::Url::parse(text) {
        Ok(url) => Some(String::from(url)),
        Err(_) => None,
    }
}

/// The answer for a stored download address, given what parsing made of it.
pub fn redirect_reply(parsed: Option<String>) -> (reply: Reply)
    ensures
        reply@ == redirect_to(optional_text(parsed)),
{
    match parsed {
        Some(location) => Reply::Redirect { location },
        None => Reply::refuse(UNKNOWN_ERROR),
    }
}

/// The first step of a request for a download: the key to read from the
/// store, or the refusal of a query that lacks a parameter.
pub fn download_redirect(params: Option<DownloadParameters>) -> (step: Result<String, Reply>)
    ensures
        download_step_view(step) == download_step(optional_download_parameters(params)),
        params is None ==> download_step_view(step) == Err::<Seq<char>, ReplyView>(
            refusal(BAD_REQUEST@),
        ),
{
    match params {
        Some(p) => {
            if p.os.as_str().is_empty() || p.denom.as_str().is_empty() {
                Err(Reply::refuse(BAD_REQUEST))
            } else {
                Ok(catalog_key(p.os.as_str(), p.denom.as_str()))
            }
        },
        None => Err(Reply::refuse(BAD_REQUEST)),
    }
}

/// The second step of a request for a download: the answer, given what the
/// store holds under the key, or `None` where it holds nothing readable.
pub fn download_redirect_found(found: Option<Value>) -> (reply: Reply)
    ensures
        reply@ == download_reply(optional_value(found)),
        found matches Some(Value::Success { url }) ==> (parsed_url(url@) matches Some(location)
            ==> reply@ == (ReplyView::Redirect { location })),
        found matches Some(Value::Failure { error }) ==> reply@ == refusal(error@),
        reply@.status() == 302 || reply@.status() == 400,
{
    match found {
        Some(Value::Success { url }) => redirect_reply(parse_url(url.as_str())),
        Some(Value::Failure { error }) => Reply::Error { status: REFUSED, message: error },
        None => Reply::refuse(NO_MATCH),
    }
}

} // verus!
