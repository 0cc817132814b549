//! Locator resolution: converting an opaque content locator (a URL-like
//! string) into a usable local file path, through the `url` crate.
//!
//! Which locators resolve is decided entirely by the `url` crate (and the
//! platform's path rules), so the functions here promise nothing about the
//! returned path; callers state what holds of their result for every path
//! that may come back.

use vstd::prelude::*;

verus! {

#[verifier::external_type_specification]
#[verifier::external_body]
pub struct ExUrl(url::Url);

/// Relies on url::Url::parse: parses an absolute URL from a string; any
/// parse failure is mapped to `None`.
#[verifier::external_body]
fn parse_url(locator: &str) -> (r: Option<url::Url>) {
    url::Url::parse(locator).ok()
}

/// Relies on url::Url::to_file_path: yields the URL's path as a local
/// absolute path, failing when the host is neither empty nor localhost or
/// when the percent-decoded path is no valid path; a path that is not valid
/// Unicode is mapped to `None` as well.
#[verifier::external_body]
fn url_to_file_path(url: &url::Url) -> (r: Option<String>) {
    match url.to_file_path() {
        Ok(path) => match path.into_os_string().into_string() {
            Ok(s) => Some(s),
            Err(_) => None,
        },
        Err(()) => None,
    }
}

/// Converts a content locator to a local file path: `None` when the locator
/// is no absolute URL or its path is not usable as a local one.
pub fn resolve_file_url(locator: &str) -> (r: Option<String>) {
    match parse_url(locator) {
        Some(url) => url_to_file_path(&url),
        None => None,
    }
}

} // verus!
