//! What the privacy policy learns of a document URI from `url` and
//! `std::path`.

use std::path::PathBuf;
use vstd::prelude::*;

verus! {

#[verifier::external_type_specification]
#[verifier::external_body]
pub struct ExPathBuf(PathBuf);

/// The scheme of the URI as `url::Url::parse` reads it (lower case), or
/// `None` when the URI does not parse.
pub uninterp spec fn url_scheme_of(uri: Seq<char>) -> Option<Seq<char>>;

pub open spec fn option_view(o: Option<String>) -> Option<Seq<char>> {
    match o {
        Some(s) => Some(s@),
        None => None,
    }
}

/// `url::Url::parse(uri)` and then `Url::scheme`.
#[verifier::external_body]
pub(crate) fn url_scheme(uri: &str) -> (res: Option<String>)
    ensures
        option_view(res) == url_scheme_of(uri@),
{
    url::Url::parse(uri).ok().map(|url| url.scheme().to_owned())
}

/// `url::Url::parse(uri)` and then `Url::to_file_path`. Nothing is stated of
/// the path: how a URL maps to a path depends on the platform.
#[verifier::external_body]
pub(crate) fn url_file_path(uri: &str) -> (res: Option<PathBuf>) {
    url::Url::parse(uri).ok().and_then(|url| url.to_file_path().ok())
}

/// `Path::to_string_lossy` of the path. Nothing is stated of the text: path
/// encodings depend on the platform.
#[verifier::external_body]
pub(crate) fn path_text(path: &PathBuf) -> (res: String) {
    path.to_string_lossy().into_owned()
}

/// `Path::file_name` of the path, when it has one that is valid UTF-8.
/// Nothing is stated of it: path syntax depends on the platform.
#[verifier::external_body]
pub(crate) fn path_file_name(path: &PathBuf) -> (res: Option<String>) {
    path.file_name().and_then(|name| name.to_str()).map(|name| name.to_owned())
}

} // verus!
