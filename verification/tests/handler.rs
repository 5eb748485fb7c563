use index_redirect::error::LookupError;
use index_redirect::handler::{
    begin_download_request, error_response, handle_download_request, is_well_formed,
    redirect_response, Config, Response, Step,
};
use index_redirect::reader::IndexFile;

const INDEX: &[u8] = b"{\"name\":\"serde\",\"vers\":\"1.0.0\",\"cksum\":\"aaa\"}\n{\"name\":\"serde\",\"vers\":\"1.1.0\",\"cksum\":\"bbb\"}\n";

fn config() -> Config {
    Config {
        index_path: "/srv/index".to_owned(),
        base_url: "https://crates.io/api/v1/crates".to_owned(),
    }
}

fn failure(status: u16, body: &str) -> Response {
    Response { status, location: None, body: body.to_owned() }
}

fn populated() -> IndexFile {
    IndexFile::Content(INDEX.to_vec())
}

#[test]
fn known_release_is_redirected_upstream() {
    let step = begin_download_request(&config(), "serde", "1.1.0");
    assert_eq!(
        Step::ReadIndexFile {
            path: "/srv/index/se/rd/serde".to_owned(),
            crate_name: "serde".to_owned(),
            crate_version: "1.1.0".to_owned(),
        },
        step
    );
    let response = handle_download_request(&config(), "serde", "1.1.0", &populated());
    assert_eq!(
        Response {
            status: 307,
            location: Some("https://crates.io/api/v1/crates/serde/1.1.0/download".to_owned()),
            body: String::new(),
        },
        response
    );
}

#[test]
fn unknown_version_is_not_found() {
    let response = handle_download_request(&config(), "serde", "2.0.0", &populated());
    assert_eq!(failure(404, "version not found"), response);
}

#[test]
fn unknown_package_is_not_found() {
    let response = handle_download_request(&config(), "nosuch", "1.0.0", &IndexFile::Missing);
    assert_eq!(failure(404, "package not found"), response);
}

#[test]
fn unreadable_index_file_is_an_internal_error() {
    let response = handle_download_request(&config(), "serde", "1.0.0", &IndexFile::Unreadable);
    assert_eq!(failure(500, "internal error"), response);
}

#[test]
fn malformed_index_record_is_an_internal_error() {
    let file = IndexFile::Content(b"garbage\n{\"vers\":\"1.0.0\",\"cksum\":\"aaa\"}\n".to_vec());
    let response = handle_download_request(&config(), "serde", "1.0.0", &file);
    assert_eq!(failure(500, "internal error"), response);
}

#[test]
fn empty_name_or_version_is_a_bad_request() {
    let bad = failure(400, "invalid package name or version");
    assert_eq!(bad, handle_download_request(&config(), "", "1.0.0", &populated()));
    assert_eq!(bad, handle_download_request(&config(), "serde", "", &populated()));
    assert_eq!(bad, handle_download_request(&config(), "", "", &IndexFile::Missing));
}

#[test]
fn name_or_version_with_slash_is_a_bad_request() {
    let bad = failure(400, "invalid package name or version");
    assert_eq!(bad, handle_download_request(&config(), "../serde", "1.0.0", &populated()));
    assert_eq!(bad, handle_download_request(&config(), "serde", "1.0.0/x", &populated()));
}

#[test]
fn release_whose_url_is_no_uri_is_a_bad_request() {
    let file = IndexFile::Content(b"{\"vers\":\"1 0\",\"cksum\":\"aaa\"}\n".to_vec());
    let response = handle_download_request(&config(), "serde", "1 0", &file);
    assert_eq!(failure(400, "invalid package name or version"), response);
    let response = handle_download_request(&config(), "ser de", "1.0.0", &populated());
    assert_eq!(failure(400, "invalid package name or version"), response);
}

#[test]
fn lookup_failure_comes_before_the_uri_check() {
    let response = handle_download_request(&config(), "ser de", "2.0.0", &populated());
    assert_eq!(failure(404, "version not found"), response);
    let response = handle_download_request(&config(), "ser de", "1.0.0", &IndexFile::Missing);
    assert_eq!(failure(404, "package not found"), response);
}

#[test]
fn repeated_request_gets_the_same_response() {
    let file = populated();
    let first = handle_download_request(&config(), "serde", "1.1.0", &file);
    let second = handle_download_request(&config(), "serde", "1.1.0", &file);
    assert_eq!(first, second);
    let first = handle_download_request(&config(), "serde", "9.9.9", &file);
    let second = handle_download_request(&config(), "serde", "9.9.9", &file);
    assert_eq!(first, second);
    assert_eq!(
        begin_download_request(&config(), "serde", "1.1.0"),
        begin_download_request(&config(), "serde", "1.1.0")
    );
}

#[test]
fn first_step_decodes_the_segments() {
    let step = begin_download_request(&config(), "semver", "1.0.0%2Bbuild");
    assert_eq!(
        Step::ReadIndexFile {
            path: "/srv/index/se/mv/semver".to_owned(),
            crate_name: "semver".to_owned(),
            crate_version: "1.0.0+build".to_owned(),
        },
        step
    );
    let step = begin_download_request(&config(), "%61b", "1");
    assert_eq!(
        Step::ReadIndexFile {
            path: "/srv/index/2/ab".to_owned(),
            crate_name: "ab".to_owned(),
            crate_version: "1".to_owned(),
        },
        step
    );
}

#[test]
fn first_step_rejects_malformed_segments() {
    let bad = Step::Respond(failure(400, "invalid package name or version"));
    assert_eq!(bad, begin_download_request(&config(), "", "1.0.0"));
    assert_eq!(bad, begin_download_request(&config(), "serde", ""));
    assert_eq!(bad, begin_download_request(&config(), "ser%de", "1.0.0"));
    assert_eq!(bad, begin_download_request(&config(), "serde", "1.0.0%"));
    assert_eq!(bad, begin_download_request(&config(), "%FFserde", "1.0.0"));
    assert_eq!(bad, begin_download_request(&config(), "..%2F..%2Fetc", "passwd"));
    assert_eq!(bad, begin_download_request(&config(), "serde", "1.0.0%2fx"));
}

#[test]
fn well_formed_segments_are_not_empty_and_slash_free() {
    assert!(is_well_formed("serde"));
    assert!(is_well_formed("1.0.0+build"));
    assert!(is_well_formed(".."));
    assert!(!is_well_formed(""));
    assert!(!is_well_formed("/"));
    assert!(!is_well_formed("a/b"));
    assert!(!is_well_formed("ab/"));
}

#[test]
fn error_responses_carry_status_and_message() {
    assert_eq!(failure(400, "invalid package name or version"), error_response(LookupError::InvalidInput));
    assert_eq!(failure(404, "package not found"), error_response(LookupError::IndexFileMissing));
    assert_eq!(failure(404, "version not found"), error_response(LookupError::VersionNotFound));
    assert_eq!(failure(500, "internal error"), error_response(LookupError::MalformedIndexRecord));
    assert_eq!(failure(500, "internal error"), error_response(LookupError::InternalIO));
}

#[test]
fn redirect_response_needs_a_valid_url() {
    assert_eq!(
        Response { status: 307, location: Some("https://x/y".to_owned()), body: String::new() },
        redirect_response("https://x/y".to_owned(), true)
    );
    assert_eq!(
        failure(400, "invalid package name or version"),
        redirect_response("https://x/y z".to_owned(), false)
    );
}

#[test]
fn first_step_under_empty_or_slash_ended_root() {
    let relative = Config { index_path: String::new(), base_url: "https://crates.io/api/v1/crates".to_owned() };
    assert_eq!(
        Step::ReadIndexFile {
            path: "se/rd/serde".to_owned(),
            crate_name: "serde".to_owned(),
            crate_version: "1.1.0".to_owned(),
        },
        begin_download_request(&relative, "serde", "1.1.0")
    );
    let slashed = Config { index_path: "/srv/index/".to_owned(), base_url: String::new() };
    assert_eq!(
        Step::ReadIndexFile {
            path: "/srv/index/2/ab".to_owned(),
            crate_name: "ab".to_owned(),
            crate_version: "1".to_owned(),
        },
        begin_download_request(&slashed, "ab", "1")
    );
}
