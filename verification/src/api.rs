//! The decoder interface: what a certificate backend has to offer.

use crate::format::X509Type;
use vstd::prelude::*;

verus! {

/// A collection of certificates that can be decoded from each of the three
/// wire formats.
///
/// The library decides which decoder to call and what to do with the answer.
/// What the answer can be is the backend's to say, in `admits`; a backend
/// that says nothing there is held to nothing.
pub trait X509Iterator: IntoIterator + Sized {
    /// What a decoder reports when it rejects its input.
    type X509IteratorError: X509IteratorError;

    /// Whether `answer` is one that the decoder of `format` can give to
    /// `src`. Unless a backend says otherwise, it can give any.
    open spec fn admits(
        format: X509Type,
        src: Seq<u8>,
        answer: Result<Self, Self::X509IteratorError>,
    ) -> bool {
        true
    }

    /// Decodes `src` as a single DER-encoded certificate.
    fn from_cer(src: &[u8]) -> (answer: Result<Self, Self::X509IteratorError>)
        ensures
            Self::admits(X509Type::Cer, src@, answer),
    ;

    /// Decodes `src` as a stack of zero or more PEM-encoded certificates.
    fn from_pem(src: &[u8]) -> (answer: Result<Self, Self::X509IteratorError>)
        ensures
            Self::admits(X509Type::Pem, src@, answer),
    ;

    /// Decodes `src` as a DER-encoded PKCS7 certificate bundle.
    fn from_pkcs7(src: &[u8]) -> (answer: Result<Self, Self::X509IteratorError>)
        ensures
            Self::admits(X509Type::Pkcs7, src@, answer),
    ;
}

/// The cause of a failed decode, kept for diagnostics.
pub trait X509IteratorError: core::fmt::Debug {
    /// Whether `text` is an account that `message` can give of this cause.
    /// Unless an error type says otherwise, it can give any.
    open spec fn describes(&self, text: Seq<char>) -> bool {
        true
    }

    /// The cause in words.
    fn message(&self) -> (text: String)
        ensures
            self.describes(text@),
    ;
}

} // verus!
