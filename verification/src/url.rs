//! The upstream download URL that a redirect points to.

use std::str::FromStr;
use vstd::prelude::*;
use warp::http::uri::InvalidUri;
use warp::http::Uri;

verus! {

/// `http::Uri`, a parsed URI. Nothing is said of its parts.
#[verifier::external_type_specification]
#[verifier::external_body]
pub struct ExUri(Uri);

/// `http::uri::InvalidUri`, why a text is no URI. Nothing is said of it.
#[verifier::external_type_specification]
#[verifier::external_body]
pub struct ExInvalidUri(InvalidUri);

/// Whether `http::Uri` accepts `text`, that is whether its `from_str`
/// returns a URI for it.
pub uninterp spec fn uri_accepts(text: Seq<char>) -> bool;

/// The download URL of a release at the registry under `base_url`.
pub open spec fn download_url(base_url: Seq<char>, name: Seq<char>, version: Seq<char>) -> Seq<
    char,
> {
    base_url + "/"@ + name + "/"@ + version + "/download"@
}

/// Builds the download URL of a release. Name and version are taken as they
/// are; nothing in them is checked or escaped.
pub fn crates_io_download_url(base_url: &str, crate_name: &str, crate_version: &str) -> (url: String)
    ensures
        url@ == download_url(base_url@, crate_name@, crate_version@),
{
    let mut url = base_url.to_owned();
    url.append("/");
    url.append(crate_name);
    url.append("/");
    url.append(crate_version);
    url.append("/download");
    url
}

/// Calls `from_str` of `http::Uri`, which `warp` hands on. The contract
/// claims only that whether it returns a URI depends on the text alone,
/// named by [`uri_accepts`].
#[verifier::external_body]
pub(crate) fn parse_uri(text: &str) -> (r: Result<Uri, InvalidUri>)
    ensures
        r is Ok <==> uri_accepts(text@),
{
    Uri::from_str(text)
}

/// Whether `url` can stand in a redirect, that is whether it parses as a URI.
pub fn is_valid_uri(url: &str) -> (valid: bool)
    ensures
        valid == uri_accepts(url@),
{
    match parse_uri(url) {
        Ok(_) => true,
        Err(_) => false,
    }
}

} // verus!
