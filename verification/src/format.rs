//! Format hints: what transport metadata suggests about a payload's encoding.

use crate::trusted::header::{
    content_type, content_type_bytes, header_text, header_values, to_str,
};
use crate::trusted::path::{extension, path_extension};
use http::HeaderMap;
use std::path::PathBuf;
use vstd::prelude::*;

verus! {

/// The wire format that transport metadata suggests for a payload.
#[derive(Clone, Copy, Debug, PartialEq, Eq, Structural)]
pub enum X509Type {
    /// A single DER-encoded certificate.
    Cer,
    /// A DER-encoded PKCS7 bundle.
    Pkcs7,
    /// A stack of PEM-armored certificates.
    Pem,
    /// Nothing usable was learned.
    Unknown,
}

/// The code of `c` with the upper-case ASCII letters moved onto the lower-case ones.
pub open spec fn folded(c: char) -> int {
    if 'A' <= c && c <= 'Z' {
        c as int + 32
    } else {
        c as int
    }
}

/// Whether `a` and `b` are the same text once ASCII case is ignored.
pub open spec fn same_ignoring_case(a: Seq<char>, b: Seq<char>) -> bool {
    &&& a.len() == b.len()
    &&& forall|i: int| 0 <= i < a.len() ==> folded(#[trigger] a[i]) == folded(b[i])
}

/// The hint that a file extension gives.
pub open spec fn extension_hint(extension: Option<Seq<char>>) -> X509Type {
    match extension {
        None => X509Type::Unknown,
        Some(e) => if same_ignoring_case(e, "cer"@) {
            X509Type::Cer
        } else if same_ignoring_case(e, "p7c"@) {
            X509Type::Pkcs7
        } else if same_ignoring_case(e, "pem"@) {
            X509Type::Pem
        } else {
            X509Type::Unknown
        },
    }
}

/// The hint that the text of a content-type header gives.
pub open spec fn content_type_hint(value: Option<Seq<char>>) -> X509Type {
    match value {
        None => X509Type::Unknown,
        Some(v) => if same_ignoring_case(v, "application/pkix-cert"@) {
            X509Type::Cer
        } else if same_ignoring_case(v, "application/pkcs7-mime"@) {
            X509Type::Pkcs7
        } else if same_ignoring_case(v, "application/pem-certificate-chain"@) {
            X509Type::Pem
        } else {
            X509Type::Unknown
        },
    }
}

/// The hint that the headers of a response give: that of the first
/// content-type value, where there is one and it is text.
pub open spec fn headers_hint(values: Map<Seq<char>, Seq<Seq<u8>>>) -> X509Type {
    content_type_hint(
        match content_type_bytes(values) {
            Some(bytes) => header_text(bytes),
            None => None,
        },
    )
}

/// The code of `c`, folded as `folded` says.
fn fold(c: char) -> (code: u32)
    ensures
        code == folded(c),
{
    let code: u32 = c as u32;
    if 65 <= code && code <= 90 {
        code + 32
    } else {
        code
    }
}

/// Compares two texts without regard to ASCII case.
pub fn eq_ignoring_case(a: &str, b: &str) -> (same: bool)
    ensures
        same == same_ignoring_case(a@, b@),
{
    let n: usize = a.unicode_len();
    if n != b.unicode_len() {
        return false;
    }
    let mut i: usize = 0;
    while i < n
        invariant
            i <= n,
            n == a@.len(),
            n == b@.len(),
            forall|j: int| 0 <= j < i ==> folded(#[trigger] a@[j]) == folded(b@[j]),
        decreases n - i,
    {
        if fold(a.get_char(i)) != fold(b.get_char(i)) {
            return false;
        }
        i += 1;
    }
    true
}

impl X509Type {
    /// Derives the hint from a file extension, if the path has one.
    pub fn from_extension(extension: Option<&str>) -> (hint: X509Type)
        ensures
            hint == extension_hint(
                match extension {
                    Some(e) => Some(e@),
                    None => None,
                },
            ),
    {
        match extension {
            None => X509Type::Unknown,
            Some(e) => {
                if eq_ignoring_case(e, "cer") {
                    X509Type::Cer
                } else if eq_ignoring_case(e, "p7c") {
                    X509Type::Pkcs7
                } else if eq_ignoring_case(e, "pem") {
                    X509Type::Pem
                } else {
                    X509Type::Unknown
                }
            },
        }
    }

    /// Derives the hint from the text of a content-type header, if there is one.
    pub fn from_content_type(value: Option<&str>) -> (hint: X509Type)
        ensures
            hint == content_type_hint(
                match value {
                    Some(v) => Some(v@),
                    None => None,
                },
            ),
    {
        match value {
            None => X509Type::Unknown,
            Some(v) => {
                if eq_ignoring_case(v, "application/pkix-cert") {
                    X509Type::Cer
                } else if eq_ignoring_case(v, "application/pkcs7-mime") {
                    X509Type::Pkcs7
                } else if eq_ignoring_case(v, "application/pem-certificate-chain") {
                    X509Type::Pem
                } else {
                    X509Type::Unknown
                }
            },
        }
    }
}

impl From<&PathBuf> for X509Type {
    /// Derives the hint from the extension of a file's path.
    fn from(path: &PathBuf) -> (hint: X509Type) {
        match extension(path) {
            None => X509Type::Unknown,
            Some(text) => X509Type::from_extension(Some(text.as_str())),
        }
    }
}

impl vstd::std_specs::convert::FromSpecImpl<&PathBuf> for X509Type {
    open spec fn obeys_from_spec() -> bool {
        true
    }

    open spec fn from_spec(path: &PathBuf) -> X509Type {
        extension_hint(path_extension(path))
    }
}

impl From<&HeaderMap> for X509Type {
    /// Derives the hint from the content type that a response declares.
    fn from(headers: &HeaderMap) -> (hint: X509Type) {
        match content_type(headers) {
            None => X509Type::Unknown,
            Some(value) => X509Type::from_content_type(to_str(value)),
        }
    }
}

impl vstd::std_specs::convert::FromSpecImpl<&HeaderMap> for X509Type {
    open spec fn obeys_from_spec() -> bool {
        true
    }

    open spec fn from_spec(headers: &HeaderMap) -> X509Type {
        headers_hint(header_values(*headers))
    }
}

/// Ignoring case is an equivalence: it relates every text to itself, and
/// whatever it relates in one direction or through a third text, it relates.
pub proof fn lemma_same_ignoring_case_equivalence(a: Seq<char>, b: Seq<char>, c: Seq<char>)
    ensures
        same_ignoring_case(a, a),
        same_ignoring_case(a, b) ==> same_ignoring_case(b, a),
        same_ignoring_case(a, b) && same_ignoring_case(b, c) ==> same_ignoring_case(a, c),
{
    if same_ignoring_case(a, b) && same_ignoring_case(b, c) {
        assert forall|i: int| 0 <= i < a.len() implies folded(#[trigger] a[i]) == folded(c[i]) by {
            assert(folded(a[i]) == folded(b[i]));
            assert(folded(b[i]) == folded(c[i]));
        }
    }
}

/// Hint derivation is case-insensitive: two spellings that differ only in
/// ASCII case give the same hint, as an extension and as a content type.
pub proof fn lemma_hint_ignores_case(a: Seq<char>, b: Seq<char>)
    requires
        same_ignoring_case(a, b),
    ensures
        extension_hint(Some(a)) == extension_hint(Some(b)),
        content_type_hint(Some(a)) == content_type_hint(Some(b)),
{
    lemma_same_ignoring_case_equivalence(a, b, "cer"@);
    lemma_same_ignoring_case_equivalence(b, a, "cer"@);
    lemma_same_ignoring_case_equivalence(a, b, "p7c"@);
    lemma_same_ignoring_case_equivalence(b, a, "p7c"@);
    lemma_same_ignoring_case_equivalence(a, b, "pem"@);
    lemma_same_ignoring_case_equivalence(b, a, "pem"@);
    lemma_same_ignoring_case_equivalence(a, b, "application/pkix-cert"@);
    lemma_same_ignoring_case_equivalence(b, a, "application/pkix-cert"@);
    lemma_same_ignoring_case_equivalence(a, b, "application/pkcs7-mime"@);
    lemma_same_ignoring_case_equivalence(b, a, "application/pkcs7-mime"@);
    lemma_same_ignoring_case_equivalence(a, b, "application/pem-certificate-chain"@);
    lemma_same_ignoring_case_equivalence(b, a, "application/pem-certificate-chain"@);
}

} // verus!
