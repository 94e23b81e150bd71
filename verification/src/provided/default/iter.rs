//! The collection that the `cms` backend decodes to.

use crate::api::X509Iterator;
use crate::format::X509Type;
use crate::provided::default::parser::{decoded, DefaultX509Parser};
use crate::provided::default::result::{DefaultX509IteratorError, DefaultX509IteratorResult};
use crate::trusted::pkcs7::Certificate;
use vstd::prelude::*;
use vstd::std_specs::iter::IteratorSpec;
use vstd::std_specs::vec::axiom_spec_into_iter;

verus! {

/// Certificates in the order in which a decoder of the `cms` backend gave
/// them out.
pub struct DefaultX509Iterator(Vec<Certificate>);

impl View for DefaultX509Iterator {
    type V = Seq<Certificate>;

    closed spec fn view(&self) -> Seq<Certificate> {
        self.0@
    }
}

impl IntoIterator for DefaultX509Iterator {
    type Item = Certificate;

    type IntoIter = std::vec::IntoIter<Certificate>;

    /// Hands out the certificates of the collection, in their order.
    fn into_iter(self) -> (certificates: Self::IntoIter)
        ensures
            certificates.remaining() == self@,
            // what a `for` loop over the certificates goes by
            certificates.decrease() is Some,
            certificates.initial_value_relation(&certificates),
    {
        proof {
            axiom_spec_into_iter(self.0);
        }
        self.0.into_iter()
    }
}

impl DefaultX509Iterator {
    /// The collection of `certificates`, in their order.
    pub fn from_vec(certificates: Vec<Certificate>) -> (collection: Self)
        ensures
            collection@ == certificates@,
    {
        DefaultX509Iterator(certificates)
    }

    /// The certificates of the collection, in their order.
    pub fn into_vec(self) -> (certificates: Vec<Certificate>)
        ensures
            certificates@ == self@,
    {
        self.0
    }
}

impl X509Iterator for DefaultX509Iterator {
    type X509IteratorError = DefaultX509IteratorError;

    /// The bytes settle the answer: the collection holds what `decoded`
    /// reads from them, and a failure is the decoder's own error.
    open spec fn admits(
        format: X509Type,
        src: Seq<u8>,
        answer: DefaultX509IteratorResult<Self>,
    ) -> bool {
        format != X509Type::Unknown ==> match decoded(format, src) {
            Ok(certificates) => answer matches Ok(collection) && collection@ == certificates,
            Err(e) => answer == Err::<Self, _>(DefaultX509IteratorError::DerError(e)),
        }
    }

    fn from_cer(src: &[u8]) -> (answer: DefaultX509IteratorResult<Self>) {
        match DefaultX509Parser::from_cer(src) {
            Ok(certificates) => Ok(DefaultX509Iterator(certificates)),
            Err(e) => Err(e),
        }
    }

    fn from_pem(src: &[u8]) -> (answer: DefaultX509IteratorResult<Self>) {
        match DefaultX509Parser::from_pem(src) {
            Ok(certificates) => Ok(DefaultX509Iterator(certificates)),
            Err(e) => Err(e),
        }
    }

    fn from_pkcs7(src: &[u8]) -> (answer: DefaultX509IteratorResult<Self>) {
        match DefaultX509Parser::from_pkcs7(src) {
            Ok(certificates) => Ok(DefaultX509Iterator(certificates)),
            Err(e) => Err(e),
        }
    }
}

} // verus!
