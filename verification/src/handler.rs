//! Deciding the response to a download request.
//!
//! A request names a package and a version. It is answered in two steps,
//! with the caller reading the index file in between:
//! [`begin_download_request`] decodes and checks the two path segments and
//! says which file to read, and [`handle_download_request`] takes what was
//! found there and decides the response. The record's checksum is not sent:
//! finding it shows that the index knows the release, and only then is the
//! client sent on to the upstream registry.

use vstd::prelude::*;
use crate::decode::{decode_segment, decoded_segment};
use crate::error::LookupError;
use crate::reader::{get_checksum_from_index, lookup, IndexFile, IndexFileModel};
use crate::shard::{crate_filename, get_index_crate_filename};
use crate::url::{crates_io_download_url, download_url, is_valid_uri, uri_accepts};

verus! {

/// The status of a temporary redirect.
pub const TEMPORARY_REDIRECT: u16 = 307;

/// Where the index lies and where the upstream registry serves downloads.
#[derive(Clone, Debug, PartialEq, Eq)]
pub struct Config {
    pub index_path: String,
    pub base_url: String,
}

/// An HTTP response, as far as this library decides it.
#[derive(Clone, Debug, PartialEq, Eq)]
pub struct Response {
    pub status: u16,
    /// The `Location` header, present on a redirect only.
    pub location: Option<String>,
    pub body: String,
}

/// A response as contracts see it.
pub struct ResponseModel {
    pub status: u16,
    pub location: Option<Seq<char>>,
    pub body: Seq<char>,
}

impl View for Response {
    type V = ResponseModel;

    open spec fn view(&self) -> ResponseModel {
        ResponseModel {
            status: self.status,
            location: match self.location {
                Some(url) => Some(url@),
                None => None,
            },
            body: self.body@,
        }
    }
}

/// What to do first for a request.
#[derive(Clone, Debug, PartialEq, Eq)]
pub enum Step {
    /// Read the file at `path` and hand what was found, with the decoded
    /// name and version, to [`handle_download_request`].
    ReadIndexFile { path: String, crate_name: String, crate_version: String },
    /// Send this response; there is nothing to read.
    Respond(Response),
}

/// A first step as contracts see it.
pub enum StepModel {
    ReadIndexFile { path: Seq<char>, crate_name: Seq<char>, crate_version: Seq<char> },
    Respond(ResponseModel),
}

impl View for Step {
    type V = StepModel;

    open spec fn view(&self) -> StepModel {
        match self {
            Step::ReadIndexFile { path, crate_name, crate_version } => StepModel::ReadIndexFile {
                path: path@,
                crate_name: crate_name@,
                crate_version: crate_version@,
            },
            Step::Respond(response) => StepModel::Respond(response@),
        }
    }
}

/// A path segment that can name a package or a version: it is not empty and
/// holds no `/`.
pub open spec fn well_formed(segment: Seq<char>) -> bool {
    segment.len() > 0 && forall|i: int| 0 <= i < segment.len() ==> segment[i] != '/'
}

/// The response that reports the error `e`.
pub open spec fn failure(e: LookupError) -> ResponseModel {
    ResponseModel { status: e.status(), location: None, body: e.message() }
}

/// The response for a release that the index knows: a temporary redirect to
/// `url` where that is a URI, `InvalidInput` where it is not.
pub open spec fn redirect(url: Seq<char>, url_is_valid: bool) -> ResponseModel {
    if url_is_valid {
        ResponseModel { status: TEMPORARY_REDIRECT, location: Some(url), body: Seq::empty() }
    } else {
        failure(LookupError::InvalidInput)
    }
}

/// The response to a request for `version` of the package `name`, given
/// what was found at the place of the package's index file.
pub open spec fn answer(
    base_url: Seq<char>,
    name: Seq<char>,
    version: Seq<char>,
    file: IndexFileModel,
) -> ResponseModel {
    if !well_formed(name) || !well_formed(version) {
        failure(LookupError::InvalidInput)
    } else {
        match lookup(file, version) {
            Err(e) => failure(e),
            Ok(_) => {
                let url = download_url(base_url, name, version);
                redirect(url, uri_accepts(url))
            },
        }
    }
}

/// The first step for a request whose path segments are `raw_name` and
/// `raw_version`, as they stood in the request path.
pub open spec fn first_step(
    index_path: Seq<char>,
    raw_name: Seq<char>,
    raw_version: Seq<char>,
) -> StepModel {
    match (decoded_segment(raw_name), decoded_segment(raw_version)) {
        (Some(name), Some(version)) => if well_formed(name) && well_formed(version) {
            StepModel::ReadIndexFile {
                path: crate_filename(index_path, name),
                crate_name: name,
                crate_version: version,
            }
        } else {
            StepModel::Respond(failure(LookupError::InvalidInput))
        },
        _ => StepModel::Respond(failure(LookupError::InvalidInput)),
    }
}

/// A request is answered with a redirect exactly when both segments are
/// well formed, the index records the version and the download URL is a URI;
/// the redirect then points to that URL. Every other answer is an error
/// status without a `Location`.
pub proof fn lemma_redirect_only_for_known_release(
    base_url: Seq<char>,
    name: Seq<char>,
    version: Seq<char>,
    file: IndexFileModel,
)
    ensures
        ({
            let response = answer(base_url, name, version, file);
            let url = download_url(base_url, name, version);
            &&& response.status == TEMPORARY_REDIRECT <==> well_formed(name) && well_formed(version)
                && lookup(file, version) is Ok && uri_accepts(url)
            &&& response.status == TEMPORARY_REDIRECT ==> response.location == Some(url)
            &&& response.status != TEMPORARY_REDIRECT ==> response.location is None && (
            response.status == 400 || response.status == 404 || response.status == 500)
        }),
{
}

/// A package without an index file, or a version that its file does not
/// record, is answered with status 404 and no redirect.
pub proof fn lemma_unknown_release_is_not_found(
    base_url: Seq<char>,
    name: Seq<char>,
    version: Seq<char>,
    file: IndexFileModel,
)
    requires
        well_formed(name),
        well_formed(version),
        file is Missing || lookup(file, version) == Err::<Seq<char>, LookupError>(
            LookupError::VersionNotFound,
        ),
    ensures
        answer(base_url, name, version, file).status == 404,
        answer(base_url, name, version, file).location is None,
{
}

/// Answering is repeatable: two responses to the same request, under the
/// same configuration and with the same file content, are the same.
pub proof fn lemma_same_request_same_response(
    config: Config,
    crate_name: &str,
    crate_version: &str,
    first_file: IndexFile,
    second_file: IndexFile,
    first: Response,
    second: Response,
)
    requires
        first_file@ == second_file@,
        first@ == answer(config.base_url@, crate_name@, crate_version@, first_file@),
        second@ == answer(config.base_url@, crate_name@, crate_version@, second_file@),
    ensures
        first@ == second@,
{
}

/// A file is read only for a name and a version that are well formed, and
/// the file read is the one that the name's place in the index gives.
pub proof fn lemma_first_step_reads_checked_request(
    index_path: Seq<char>,
    raw_name: Seq<char>,
    raw_version: Seq<char>,
)
    ensures
        match first_step(index_path, raw_name, raw_version) {
            StepModel::ReadIndexFile { path, crate_name, crate_version } => {
                &&& decoded_segment(raw_name) == Some(crate_name)
                &&& decoded_segment(raw_version) == Some(crate_version)
                &&& well_formed(crate_name)
                &&& well_formed(crate_version)
                &&& path == crate_filename(index_path, crate_name)
            },
            StepModel::Respond(response) => response == failure(LookupError::InvalidInput),
        },
{
}

/// Computes [`well_formed`].
pub fn is_well_formed(segment: &str) -> (ok: bool)
    ensures
        ok == well_formed(segment@),
{
    let mut slash_free = true;
    for c in it: segment.chars()
        invariant
            it.seq() == segment@,
            slash_free == (forall|i: int| 0 <= i < it.index() ==> segment@[i] != '/'),
    {
        if c == '/' {
            slash_free = false;
        }
    }
    slash_free && !segment.is_empty()
}

/// The response that reports `e`.
pub fn error_response(e: LookupError) -> (response: Response)
    ensures
        response@ == failure(e),
{
    Response { status: e.status_code(), location: None, body: e.message_text() }
}

/// The response for a release that the index knows, given its download URL
/// and whether that URL is a URI.
pub fn redirect_response(url: String, url_is_valid: bool) -> (response: Response)
    ensures
        response@ == redirect(url@, url_is_valid),
{
    if url_is_valid {
        Response { status: TEMPORARY_REDIRECT, location: Some(url), body: String::new() }
    } else {
        error_response(LookupError::InvalidInput)
    }
}

/// Decodes and checks the two path segments of a request and names the index
/// file to read, or answers at once where a segment is malformed.
pub fn begin_download_request(config: &Config, raw_name: &str, raw_version: &str) -> (step: Step)
    ensures
        step@ == first_step(config.index_path@, raw_name@, raw_version@),
{
    let crate_name = match decode_segment(raw_name) {
        Ok(name) => name,
        Err(e) => {
            return Step::Respond(error_response(e));
        },
    };
    let crate_version = match decode_segment(raw_version) {
        Ok(version) => version,
        Err(e) => {
            return Step::Respond(error_response(e));
        },
    };
    if !is_well_formed(crate_name.as_str()) || !is_well_formed(crate_version.as_str()) {
        return Step::Respond(error_response(LookupError::InvalidInput));
    }
    match get_index_crate_filename(config.index_path.as_str(), crate_name.as_str()) {
        Ok(path) => Step::ReadIndexFile { path, crate_name, crate_version },
        Err(e) => Step::Respond(error_response(e)),
    }
}

/// Decides the response to a request for `crate_version` of `crate_name`,
/// given what was found at the place of the package's index file.
pub fn handle_download_request(
    config: &Config,
    crate_name: &str,
    crate_version: &str,
    file: &IndexFile,
) -> (response: Response)
    ensures
        response@ == answer(config.base_url@, crate_name@, crate_version@, file@),
{
    if !is_well_formed(crate_name) || !is_well_formed(crate_version) {
        return error_response(LookupError::InvalidInput);
    }
    match get_checksum_from_index(file, crate_version) {
        Err(e) => error_response(e),
        Ok(_) => {
            let url = crates_io_download_url(config.base_url.as_str(), crate_name, crate_version);
            let url_is_valid = is_valid_uri(url.as_str());
            redirect_response(url, url_is_valid)
        },
    }
}

} // verus!
