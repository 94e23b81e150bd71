//! The three decoders of the `cms` backend.

use crate::format::X509Type;
use crate::provided::default::result::{DefaultX509IteratorError, DefaultX509IteratorResult};
use crate::trusted::pkcs7::{
    certificate_choices, certificate_from_der, certificate_set, content_der, content_info_from_der,
    content_to_der, der_certificate, der_content_info, der_signed_data, has_body, load_pem_chain,
    pem_certificates, signed_data_from_der, Certificate, CertificateChoice,
};
use cms::cert::x509::der::Error;
use vstd::prelude::*;

verus! {

/// The plain X.509 certificates among `choices`, in their order. Members in
/// any other format are left out.
pub open spec fn plain_certificates(choices: Seq<CertificateChoice>) -> Seq<Certificate>
    decreases choices.len(),
{
    if choices.len() == 0 {
        Seq::empty()
    } else {
        let rest = plain_certificates(choices.drop_last());
        match choices.last() {
            CertificateChoice::Certificate(c) => rest.push(c),
            CertificateChoice::Other(_) => rest,
        }
    }
}

/// The certificate set of the PKCS7 bundle that `src` encodes: `src` read as
/// a `ContentInfo`, its content encoded again and read as a `SignedData`,
/// and of that the `certificates` field.
pub open spec fn bundle_certificate_set(src: Seq<u8>) -> Result<
    Option<Seq<CertificateChoice>>,
    Error,
> {
    match der_content_info(src) {
        Err(e) => Err(e),
        Ok(info) => match content_der(info) {
            Err(e) => Err(e),
            Ok(content) => match der_signed_data(content) {
                Err(e) => Err(e),
                Ok(signed_data) => Ok(certificate_set(signed_data)),
            },
        },
    }
}

/// The plain certificates that a bundle's certificate set holds; none where
/// the bundle has no such set.
pub open spec fn bundle_certificates(set: Option<Seq<CertificateChoice>>) -> Seq<Certificate> {
    match set {
        None => Seq::empty(),
        Some(choices) => plain_certificates(choices),
    }
}

/// The certificates that the decoder of `format` reads from `src`, in the
/// order in which it gives them out, or the error it fails with.
///
/// A single certificate has to take up the whole of `src`. A chain is the
/// certificates of its PEM blocks, and none where `src` holds nothing but
/// line ends. A bundle is the plain certificates of its certificate set.
pub open spec fn decoded(format: X509Type, src: Seq<u8>) -> Result<Seq<Certificate>, Error> {
    match format {
        X509Type::Cer => match der_certificate(src) {
            Ok(c) => Ok(seq![c]),
            Err(e) => Err(e),
        },
        X509Type::Pem => if has_body(src) {
            pem_certificates(src)
        } else {
            Ok(Seq::empty())
        },
        _ => match bundle_certificate_set(src) {
            Ok(set) => Ok(bundle_certificates(set)),
            Err(e) => Err(e),
        },
    }
}

/// Whether `r` hands on what a decoder read: the certificates as they are,
/// the error as a `DerError`.
pub open spec fn hands_on(
    read: Result<Seq<Certificate>, Error>,
    r: DefaultX509IteratorResult<Vec<Certificate>>,
) -> bool {
    match read {
        Ok(certificates) => r matches Ok(v) && v@ == certificates,
        Err(e) => r == Err::<Vec<Certificate>, _>(DefaultX509IteratorError::DerError(e)),
    }
}

/// Whether `src` holds a byte other than a carriage return or a line feed.
pub fn holds_body(src: &[u8]) -> (found: bool)
    ensures
        found == has_body(src@),
{
    let mut i: usize = 0;
    while i < src.len()
        invariant
            i <= src.len(),
            forall|j: int| 0 <= j < i ==> src@[j] == 13 || src@[j] == 10,
        decreases src.len() - i,
    {
        if src[i] != 13 && src[i] != 10 {
            return true;
        }
        i += 1;
    }
    false
}

/// Reads the certificate set of the PKCS7 bundle that `src` encodes.
pub fn read_certificate_set(src: &[u8]) -> (r: Result<Option<Vec<CertificateChoice>>, Error>)
    ensures
        match r {
            Ok(Some(choices)) => bundle_certificate_set(src@) == Ok::<_, Error>(Some(choices@)),
            Ok(None) => bundle_certificate_set(src@) == Ok::<Option<Seq<CertificateChoice>>, Error>(
                None,
            ),
            Err(e) => bundle_certificate_set(src@) == Err::<Option<Seq<CertificateChoice>>, _>(e),
        },
{
    let info = match content_info_from_der(src) {
        Ok(info) => info,
        Err(e) => {
            return Err(e);
        },
    };
    let content = match content_to_der(&info) {
        Ok(content) => content,
        Err(e) => {
            return Err(e);
        },
    };
    let signed_data = match signed_data_from_der(content.as_slice()) {
        Ok(signed_data) => signed_data,
        Err(e) => {
            return Err(e);
        },
    };
    Ok(certificate_choices(signed_data))
}

/// The decoders of the `cms` backend, each from bytes to certificates.
pub struct DefaultX509Parser;

impl DefaultX509Parser {
    /// Decodes `src` as a single DER-encoded certificate: the whole of `src`
    /// has to be that certificate.
    pub fn from_cer(src: &[u8]) -> (r: DefaultX509IteratorResult<Vec<Certificate>>)
        ensures
            hands_on(decoded(X509Type::Cer, src@), r),
    {
        match certificate_from_der(src) {
            Ok(c) => {
                let mut certificates: Vec<Certificate> = Vec::new();
                certificates.push(c);
                Ok(certificates)
            },
            Err(e) => Err(DefaultX509IteratorError::DerError(e)),
        }
    }

    /// Decodes `src` as a stack of PEM-encoded certificates. Input that
    /// holds nothing but line ends holds no certificate.
    pub fn from_pem(src: &[u8]) -> (r: DefaultX509IteratorResult<Vec<Certificate>>)
        ensures
            hands_on(decoded(X509Type::Pem, src@), r),
    {
        if !holds_body(src) {
            return Ok(Vec::new());
        }
        match load_pem_chain(src) {
            Ok(certificates) => Ok(certificates),
            Err(e) => Err(DefaultX509IteratorError::DerError(e)),
        }
    }

    /// Decodes `src` as a DER-encoded PKCS7 bundle and returns the plain
    /// X.509 certificates of its certificate set, in the set's order.
    /// Members in other formats are dropped; a bundle without the set holds
    /// no certificate.
    pub fn from_pkcs7(src: &[u8]) -> (r: DefaultX509IteratorResult<Vec<Certificate>>)
        ensures
            hands_on(decoded(X509Type::Pkcs7, src@), r),
    {
        match read_certificate_set(src) {
            Err(e) => Err(DefaultX509IteratorError::DerError(e)),
            Ok(None) => Ok(Vec::new()),
            Ok(Some(choices)) => Ok(keep_plain(choices)),
        }
    }
}

/// Keeps the plain X.509 certificates of `choices`, in order.
pub fn keep_plain(choices: Vec<CertificateChoice>) -> (certificates: Vec<Certificate>)
    ensures
        certificates@ == plain_certificates(choices@),
{
    let mut certificates: Vec<Certificate> = Vec::new();
    for choice in members: choices.into_iter()
        invariant
            members.seq() == choices@,
            certificates@ == plain_certificates(choices@.take(members.index())),
    {
        proof {
            let seen = choices@.take(members.index() + 1);
            assert(seen.drop_last() == choices@.take(members.index()));
            assert(seen.last() == choice);
        }
        if let CertificateChoice::Certificate(c) = choice {
            certificates.push(c);
        }
    }
    proof {
        assert(choices@.take(choices@.len() as int) == choices@);
    }
    certificates
}

} // verus!
