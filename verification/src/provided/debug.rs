//! A backend that decodes nothing: it keeps the bytes it is given.

use crate::api::{X509Iterator, X509IteratorError};
use crate::format::X509Type;
use crate::trusted::buffer::{bytes_content, copy_from_slice, empty_bytes};
use bytes::Bytes;
use core::convert::Infallible;
use vstd::prelude::*;
use vstd::std_specs::iter::IteratorSpec;
use vstd::std_specs::vec::axiom_spec_into_iter;

verus! {

/// The payload as it arrived, or nothing. Every decoder accepts every input
/// and keeps a copy of it as the one item of the collection.
#[derive(Clone, Debug)]
pub struct DebugX509Iterator(Option<Bytes>);

impl View for DebugX509Iterator {
    type V = Option<Seq<u8>>;

    closed spec fn view(&self) -> Option<Seq<u8>> {
        match self.0 {
            Some(bytes) => Some(bytes_content(bytes)),
            None => None,
        }
    }
}

impl From<Bytes> for DebugX509Iterator {
    fn from(bytes: Bytes) -> (collection: Self) {
        DebugX509Iterator(Some(bytes))
    }
}

impl vstd::std_specs::convert::FromSpecImpl<Bytes> for DebugX509Iterator {
    open spec fn obeys_from_spec() -> bool {
        true
    }

    closed spec fn from_spec(bytes: Bytes) -> Self {
        DebugX509Iterator(Some(bytes))
    }
}

impl IntoIterator for DebugX509Iterator {
    type Item = Bytes;

    type IntoIter = std::vec::IntoIter<Bytes>;

    /// Hands out the payload, if there is one, and then nothing more.
    fn into_iter(self) -> (items: Self::IntoIter)
        ensures
            match self@ {
                Some(payload) => items.remaining().len() == 1 && bytes_content(
                    items.remaining()[0],
                ) == payload,
                None => items.remaining().len() == 0,
            },
            // what a `for` loop over the items goes by
            items.decrease() is Some,
            items.initial_value_relation(&items),
    {
        let held = self.into_vec();
        proof {
            axiom_spec_into_iter(held);
        }
        held.into_iter()
    }
}

impl DebugX509Iterator {
    /// The collection that holds the first of `items`, if there is one.
    pub fn from_vec(items: Vec<Bytes>) -> (collection: Self)
        ensures
            collection@ == if items@.len() > 0 {
                Some(bytes_content(items@[0]))
            } else {
                None
            },
    {
        let mut items = items;
        if items.len() == 0 {
            DebugX509Iterator(None)
        } else {
            DebugX509Iterator(Some(items.swap_remove(0)))
        }
    }

    /// The items of the collection: the payload, if there is one.
    pub fn into_vec(self) -> (items: Vec<Bytes>)
        ensures
            match self@ {
                Some(payload) => items@.len() == 1 && bytes_content(items@[0]) == payload,
                None => items@.len() == 0,
            },
    {
        let mut items: Vec<Bytes> = Vec::new();
        if let Some(bytes) = self.0 {
            items.push(bytes);
        }
        items
    }

    /// The payload, and where there is none, no bytes.
    pub fn into_bytes(self) -> (bytes: Bytes)
        ensures
            bytes_content(bytes) == match self@ {
                Some(payload) => payload,
                None => Seq::<u8>::empty(),
            },
    {
        match self.0 {
            Some(bytes) => bytes,
            None => empty_bytes(),
        }
    }
}

impl X509IteratorError for Infallible {
    /// Of a cause that cannot come about there is nothing to tell: the
    /// account is empty.
    open spec fn describes(&self, text: Seq<char>) -> bool {
        text == Seq::<char>::empty()
    }

    /// Never called: there is no value to call it on.
    fn message(&self) -> (text: String) {
        String::new()
    }
}

impl X509Iterator for DebugX509Iterator {
    type X509IteratorError = Infallible;

    /// Every decoder accepts, and keeps the bytes.
    open spec fn admits(
        format: X509Type,
        src: Seq<u8>,
        answer: Result<Self, Self::X509IteratorError>,
    ) -> bool {
        answer matches Ok(collection) && collection@ == Some(src)
    }

    fn from_cer(src: &[u8]) -> (answer: Result<Self, Self::X509IteratorError>) {
        Ok(DebugX509Iterator(Some(copy_from_slice(src))))
    }

    fn from_pem(src: &[u8]) -> (answer: Result<Self, Self::X509IteratorError>) {
        Ok(DebugX509Iterator(Some(copy_from_slice(src))))
    }

    fn from_pkcs7(src: &[u8]) -> (answer: Result<Self, Self::X509IteratorError>) {
        Ok(DebugX509Iterator(Some(copy_from_slice(src))))
    }
}

} // verus!
