//! The failures of the `cms` backend.

use crate::api::X509IteratorError;
use crate::trusted::pkcs7::{der_error_text, der_error_to_string};
use cms::cert::x509::der::Error;
use vstd::prelude::*;
use vstd::string::StringExecFns;

verus! {

pub type DefaultX509IteratorResult<T> = Result<T, DefaultX509IteratorError>;

/// Why the `cms` backend rejected its input.
#[derive(Debug)]
pub enum DefaultX509IteratorError {
    /// A failure told in words.
    Error(String),
    /// A failure of the DER decoder or encoder.
    DerError(Error),
}

impl DefaultX509IteratorError {
    /// The failure in words.
    pub open spec fn text(&self) -> Seq<char> {
        match self {
            DefaultX509IteratorError::Error(e) => "default x509 iterator -> error: "@ + e@,
            DefaultX509IteratorError::DerError(e) => "default x509 iterator -> der error: "@
                + der_error_text(*e),
        }
    }
}

impl X509IteratorError for DefaultX509IteratorError {
    open spec fn describes(&self, text: Seq<char>) -> bool {
        text == self.text()
    }

    fn message(&self) -> (text: String) {
        match self {
            DefaultX509IteratorError::Error(e) => String::from_str(
                "default x509 iterator -> error: ",
            ).concat(e.as_str()),
            DefaultX509IteratorError::DerError(e) => String::from_str(
                "default x509 iterator -> der error: ",
            ).concat(der_error_to_string(e).as_str()),
        }
    }
}

impl From<Error> for DefaultX509IteratorError {
    fn from(e: Error) -> (error: Self) {
        DefaultX509IteratorError::DerError(e)
    }
}

impl vstd::std_specs::convert::FromSpecImpl<Error> for DefaultX509IteratorError {
    open spec fn obeys_from_spec() -> bool {
        true
    }

    open spec fn from_spec(e: Error) -> Self {
        DefaultX509IteratorError::DerError(e)
    }
}

} // verus!
