//! The collection that the `openssl` backend decodes to.

use crate::api::X509Iterator;
use crate::format::X509Type;
use crate::provided::ssl::parser::{can_answer, OpenSSLX509Parser};
use crate::provided::ssl::result::{OpenSSLX509IteratorError, OpenSSLX509IteratorResult};
use openssl::x509::X509;
use vstd::prelude::*;
use vstd::std_specs::iter::IteratorSpec;
use vstd::std_specs::vec::axiom_spec_into_iter;

verus! {

/// Certificates in the order in which a decoder of the `openssl` backend
/// gave them out.
pub struct OpenSSLX509Iterator(Vec<X509>);

impl View for OpenSSLX509Iterator {
    type V = Seq<X509>;

    closed spec fn view(&self) -> Seq<X509> {
        self.0@
    }
}

impl IntoIterator for OpenSSLX509Iterator {
    type Item = X509;

    type IntoIter = std::vec::IntoIter<X509>;

    /// Hands out the certificates of the collection, in their order.
    fn into_iter(self) -> (certificates: Self::IntoIter)
        ensures
            certificates.remaining() == self@,
            // what a `for` loop over the certificates goes by
            certificates.decrease() is Some,
            certificates.initial_value_relation(&certificates),
    {
        proof {
            axiom_spec_into_iter(self.0);
        }
        self.0.into_iter()
    }
}

impl OpenSSLX509Iterator {
    /// The collection of `certificates`, in their order.
    pub fn from_vec(certificates: Vec<X509>) -> (collection: Self)
        ensures
            collection@ == certificates@,
    {
        OpenSSLX509Iterator(certificates)
    }

    /// The certificates of the collection, in their order.
    pub fn into_vec(self) -> (certificates: Vec<X509>)
        ensures
            certificates@ == self@,
    {
        self.0
    }
}

impl X509Iterator for OpenSSLX509Iterator {
    type X509IteratorError = OpenSSLX509IteratorError;

    /// What `can_answer` says of the count and of the failure.
    open spec fn admits(
        format: X509Type,
        src: Seq<u8>,
        answer: OpenSSLX509IteratorResult<Self>,
    ) -> bool {
        format != X509Type::Unknown ==> can_answer(
            format,
            src,
            match answer {
                Ok(collection) => Ok(collection@.len()),
                Err(e) => Err(e),
            },
        )
    }

    fn from_cer(src: &[u8]) -> (answer: OpenSSLX509IteratorResult<Self>) {
        match OpenSSLX509Parser::from_cer(src) {
            Ok(certificates) => Ok(OpenSSLX509Iterator(certificates)),
            Err(e) => Err(e),
        }
    }

    fn from_pem(src: &[u8]) -> (answer: OpenSSLX509IteratorResult<Self>) {
        match OpenSSLX509Parser::from_pem(src) {
            Ok(certificates) => Ok(OpenSSLX509Iterator(certificates)),
            Err(e) => Err(e),
        }
    }

    fn from_pkcs7(src: &[u8]) -> (answer: OpenSSLX509IteratorResult<Self>) {
        match OpenSSLX509Parser::from_pkcs7(src) {
            Ok(certificates) => Ok(OpenSSLX509Iterator(certificates)),
            Err(e) => Err(e),
        }
    }
}

} // verus!
