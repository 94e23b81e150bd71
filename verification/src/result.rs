//! The failures that a request can end in.

use crate::api::X509IteratorError;
use crate::trusted::text::{decimal, to_decimal};
use vstd::prelude::*;
use vstd::string::StringExecFns;

verus! {

/// Why a request for certificates failed. Every failure is final: nothing is
/// retried and nothing is returned beside it.
#[derive(Debug)]
pub enum X509ClientError {
    /// A `file` origin was named while file transport is switched off.
    SchemeNotPermitted,
    /// A `file` origin whose URL, held here as text, names no local path.
    PathResolutionFailed(String),
    /// The server answered with a status outside the 2xx range.
    HttpStatusError(u16),
    /// The body outgrew the ceiling set for it.
    SizeLimitExceeded {
        /// The ceiling, in bytes.
        limit: usize,
    },
    /// A strict parse was asked for with nothing known of the format.
    UnknownFormatNotPermitted,
    /// The one decoder that a strict parse consulted rejected the bytes; the
    /// decoder's account of the cause is kept.
    X509IteratorError(String),
    /// Every decoder that a relaxed parse consulted rejected the bytes.
    NoFormatMatched,
    /// The first certificate was asked of an empty collection.
    EmptyResult,
}

pub type X509ClientResult<T> = Result<T, X509ClientError>;

impl X509ClientError {
    /// The failure in words.
    pub open spec fn text(&self) -> Seq<char> {
        match self {
            X509ClientError::SchemeNotPermitted => "x509-client -> error: file scheme not permitted"@,
            X509ClientError::PathResolutionFailed(url) => "x509-client -> error: cannot parse file url "@
                + url@,
            X509ClientError::HttpStatusError(status) => "x509-client -> http client error: status "@
                + decimal(*status as nat),
            X509ClientError::SizeLimitExceeded { limit } => "x509-client -> error: total transferred bytes exceeded limit "@
                + decimal(*limit as nat),
            X509ClientError::UnknownFormatNotPermitted => "x509-client -> error: unknown type not permitted"@,
            X509ClientError::X509IteratorError(cause) => "x509-client -> "@ + cause@,
            X509ClientError::NoFormatMatched => "x509-client -> error: failed to parse"@,
            X509ClientError::EmptyResult => "x509-client -> error: no certificates found"@,
        }
    }

    /// Wraps the cause of a failed decode: of the cause its account in words
    /// is kept.
    pub fn decode_failure<E: X509IteratorError>(cause: &E) -> (e: X509ClientError)
        ensures
            e matches X509ClientError::X509IteratorError(text) && cause.describes(text@),
    {
        X509ClientError::X509IteratorError(cause.message())
    }
}

impl X509IteratorError for X509ClientError {
    open spec fn describes(&self, text: Seq<char>) -> bool {
        text == self.text()
    }

    fn message(&self) -> (text: String) {
        match self {
            X509ClientError::SchemeNotPermitted => String::from_str(
                "x509-client -> error: file scheme not permitted",
            ),
            X509ClientError::PathResolutionFailed(url) => String::from_str(
                "x509-client -> error: cannot parse file url ",
            ).concat(url.as_str()),
            X509ClientError::HttpStatusError(status) => String::from_str(
                "x509-client -> http client error: status ",
            ).concat(to_decimal(*status as usize).as_str()),
            X509ClientError::SizeLimitExceeded { limit } => String::from_str(
                "x509-client -> error: total transferred bytes exceeded limit ",
            ).concat(to_decimal(*limit).as_str()),
            X509ClientError::UnknownFormatNotPermitted => String::from_str(
                "x509-client -> error: unknown type not permitted",
            ),
            X509ClientError::X509IteratorError(cause) => String::from_str("x509-client -> ").concat(
                cause.as_str(),
            ),
            X509ClientError::NoFormatMatched => String::from_str(
                "x509-client -> error: failed to parse",
            ),
            X509ClientError::EmptyResult => String::from_str(
                "x509-client -> error: no certificates found",
            ),
        }
    }
}

} // verus!
