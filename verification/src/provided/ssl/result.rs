//! The failures of the `openssl` backend.

use crate::api::X509IteratorError;
use crate::trusted::pkcs7::{der_error_text, der_error_to_string};
use crate::trusted::ssl::error_stack_to_string;
use cms::cert::x509::der::Error;
use openssl::error::ErrorStack;
use vstd::prelude::*;
use vstd::string::StringExecFns;

verus! {

pub type OpenSSLX509IteratorResult<T> = Result<T, OpenSSLX509IteratorError>;

/// Why the `openssl` backend rejected its input.
#[derive(Debug)]
pub enum OpenSSLX509IteratorError {
    /// A failure told in words.
    Error(String),
    /// The errors that OpenSSL reported.
    OpenSslErrorStack(ErrorStack),
    /// A failure of the DER decoder or encoder that takes bundles apart.
    CmsDerError(Error),
}

impl X509IteratorError for OpenSSLX509IteratorError {
    /// The account names the kind of failure and then gives the cause. What
    /// OpenSSL says of its errors is not stated.
    open spec fn describes(&self, text: Seq<char>) -> bool {
        match self {
            OpenSSLX509IteratorError::Error(e) => text == "openssl x509 iterator -> error: "@ + e@,
            OpenSSLX509IteratorError::OpenSslErrorStack(_) => exists|errors: Seq<char>|
                text == "openssl x509 iterator -> openssl error stack: "@ + errors,
            OpenSSLX509IteratorError::CmsDerError(e) => text
                == "openssl x509 iterator -> cms der error: "@ + der_error_text(*e),
        }
    }

    fn message(&self) -> (text: String) {
        match self {
            OpenSSLX509IteratorError::Error(e) => String::from_str(
                "openssl x509 iterator -> error: ",
            ).concat(e.as_str()),
            OpenSSLX509IteratorError::OpenSslErrorStack(e) => {
                let errors = error_stack_to_string(e);
                String::from_str("openssl x509 iterator -> openssl error stack: ").concat(
                    errors.as_str(),
                )
            },
            OpenSSLX509IteratorError::CmsDerError(e) => String::from_str(
                "openssl x509 iterator -> cms der error: ",
            ).concat(der_error_to_string(e).as_str()),
        }
    }
}

impl From<ErrorStack> for OpenSSLX509IteratorError {
    fn from(e: ErrorStack) -> (error: Self) {
        OpenSSLX509IteratorError::OpenSslErrorStack(e)
    }
}

impl vstd::std_specs::convert::FromSpecImpl<ErrorStack> for OpenSSLX509IteratorError {
    open spec fn obeys_from_spec() -> bool {
        true
    }

    open spec fn from_spec(e: ErrorStack) -> Self {
        OpenSSLX509IteratorError::OpenSslErrorStack(e)
    }
}

impl From<Error> for OpenSSLX509IteratorError {
    fn from(e: Error) -> (error: Self) {
        OpenSSLX509IteratorError::CmsDerError(e)
    }
}

impl vstd::std_specs::convert::FromSpecImpl<Error> for OpenSSLX509IteratorError {
    open spec fn obeys_from_spec() -> bool {
        true
    }

    open spec fn from_spec(e: Error) -> Self {
        OpenSSLX509IteratorError::CmsDerError(e)
    }
}

} // verus!
