//! Origins, as the `url` crate holds them.

use std::path::PathBuf;
use url::Url;
use vstd::prelude::*;

verus! {

#[verifier::external_type_specification]
#[verifier::external_body]
pub struct ExUrl(Url);

/// The scheme of a URL: lower-case ASCII, without the colon.
pub uninterp spec fn url_scheme(url: Url) -> Seq<char>;

/// The whole URL as text.
pub uninterp spec fn url_text(url: Url) -> Seq<char>;

/// `Url::scheme`: the scheme of the URL.
#[verifier::external_body]
pub(crate) fn scheme(url: &Url) -> (scheme: &str)
    ensures
        scheme@ == url_scheme(*url),
{
    url.scheme()
}

/// `Url::as_str`: the URL in its serialised form.
#[verifier::external_body]
pub(crate) fn as_str(url: &Url) -> (text: &str)
    ensures
        text@ == url_text(*url),
{
    url.as_str()
}

/// `Url::to_file_path`: the local path that the URL names, or `None` where
/// the crate finds none. Which of the two depends on the platform, so nothing
/// is claimed of the answer.
#[verifier::external_body]
pub(crate) fn to_file_path(url: &Url) -> Option<PathBuf> {
    url.to_file_path().ok()
}

} // verus!
