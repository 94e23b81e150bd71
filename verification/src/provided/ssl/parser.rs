//! The three decoders of the `openssl` backend.

use crate::format::X509Type;
use crate::provided::default::parser::{
    bundle_certificate_set, bundle_certificates, keep_plain, read_certificate_set,
};
use crate::provided::ssl::result::{OpenSSLX509IteratorError, OpenSSLX509IteratorResult};
use crate::trusted::pkcs7::{certificate_der, certificate_to_der, Certificate};
use crate::trusted::ssl::{x509_from_der, x509_stack_from_pem, PEM_MAX_LEN};
use cms::cert::x509::der::Error;
use openssl::x509::X509;
use vstd::prelude::*;
use vstd::string::StringExecFns;

verus! {

/// Whether every one of the first `n` certificates can be encoded in DER.
pub open spec fn encodable(certificates: Seq<Certificate>, n: int) -> bool {
    forall|i: int| 0 <= i < n && i < certificates.len() ==> certificate_der(
        #[trigger] certificates[i],
    ) is Ok
}

/// Whether the encoder fails with `e` on one of `certificates` and on none
/// before it.
pub open spec fn encoding_fails(certificates: Seq<Certificate>, e: Error) -> bool {
    exists|i: int|
        0 <= i < certificates.len() && encodable(certificates, i) && certificate_der(
            #[trigger] certificates[i],
        ) == Err::<Seq<u8>, _>(e)
}

/// Whether the decoder of `format` can answer `src` with `answer`: that many
/// certificates, or that failure.
///
/// What OpenSSL makes of a certificate is OpenSSL's to say. Stated is what
/// holds of every answer: a single certificate is one certificate; a chain
/// longer than `PEM_MAX_LEN` is refused here and any other failure is
/// OpenSSL's; a bundle that cannot be taken apart fails with the error of
/// taking it apart, and one that can gives as many certificates as its set
/// holds plain ones, or fails on one of them.
pub open spec fn can_answer(
    format: X509Type,
    src: Seq<u8>,
    answer: Result<nat, OpenSSLX509IteratorError>,
) -> bool {
    match format {
        X509Type::Cer => match answer {
            Ok(count) => count == 1,
            Err(e) => e is OpenSslErrorStack,
        },
        X509Type::Pem => match answer {
            Ok(_) => src.len() <= PEM_MAX_LEN,
            Err(OpenSSLX509IteratorError::Error(_)) => src.len() > PEM_MAX_LEN,
            Err(OpenSSLX509IteratorError::OpenSslErrorStack(_)) => src.len() <= PEM_MAX_LEN,
            Err(OpenSSLX509IteratorError::CmsDerError(_)) => false,
        },
        _ => match bundle_certificate_set(src) {
            Err(e) => answer == Err::<nat, _>(OpenSSLX509IteratorError::CmsDerError(e)),
            Ok(set) => match answer {
                Ok(count) => count == bundle_certificates(set).len() && encodable(
                    bundle_certificates(set),
                    count as int,
                ),
                Err(OpenSSLX509IteratorError::CmsDerError(e)) => encoding_fails(
                    bundle_certificates(set),
                    e,
                ),
                Err(OpenSSLX509IteratorError::OpenSslErrorStack(_)) => bundle_certificates(
                    set,
                ).len() > 0,
                Err(OpenSSLX509IteratorError::Error(_)) => false,
            },
        },
    }
}

/// An answer with its certificates counted.
pub open spec fn counted<T>(r: OpenSSLX509IteratorResult<Vec<T>>) -> Result<
    nat,
    OpenSSLX509IteratorError,
> {
    match r {
        Ok(certificates) => Ok(certificates@.len()),
        Err(e) => Err(e),
    }
}

/// The decoders of the `openssl` backend, each from bytes to certificates.
pub struct OpenSSLX509Parser;

impl OpenSSLX509Parser {
    /// Decodes `src` as a single DER-encoded certificate.
    pub fn from_cer(src: &[u8]) -> (r: OpenSSLX509IteratorResult<Vec<X509>>)
        ensures
            can_answer(X509Type::Cer, src@, counted(r)),
    {
        match x509_from_der(src) {
            Ok(c) => {
                let mut certificates: Vec<X509> = Vec::new();
                certificates.push(c);
                Ok(certificates)
            },
            Err(e) => Err(OpenSSLX509IteratorError::OpenSslErrorStack(e)),
        }
    }

    /// Decodes `src` as a stack of PEM-encoded certificates. Input longer
    /// than `PEM_MAX_LEN` is more than OpenSSL takes, and is rejected here.
    pub fn from_pem(src: &[u8]) -> (r: OpenSSLX509IteratorResult<Vec<X509>>)
        ensures
            can_answer(X509Type::Pem, src@, counted(r)),
    {
        if src.len() > PEM_MAX_LEN {
            return Err(
                OpenSSLX509IteratorError::Error(String::from_str("input too long for a PEM stack")),
            );
        }
        match x509_stack_from_pem(src) {
            Ok(certificates) => Ok(certificates),
            Err(e) => Err(OpenSSLX509IteratorError::OpenSslErrorStack(e)),
        }
    }

    /// Decodes `src` as a DER-encoded PKCS7 bundle, and has OpenSSL read each
    /// plain X.509 certificate of its certificate set from its DER encoding,
    /// in the set's order. Members in other formats are dropped; a bundle
    /// without the set holds no certificate.
    pub fn from_pkcs7(src: &[u8]) -> (r: OpenSSLX509IteratorResult<Vec<X509>>)
        ensures
            can_answer(X509Type::Pkcs7, src@, counted(r)),
    {
        let plain = match read_certificate_set(src) {
            Err(e) => {
                return Err(OpenSSLX509IteratorError::CmsDerError(e));
            },
            Ok(None) => {
                return Ok(Vec::new());
            },
            Ok(Some(choices)) => keep_plain(choices),
        };
        let mut certificates: Vec<X509> = Vec::new();
        let mut i: usize = 0;
        while i < plain.len()
            invariant
                i <= plain.len(),
                certificates@.len() == i,
                encodable(plain@, i as int),
                bundle_certificate_set(src@) matches Ok(set) && plain@ == bundle_certificates(set),
            decreases plain.len() - i,
        {
            let der = match certificate_to_der(&plain[i]) {
                Ok(der) => der,
                Err(e) => {
                    return Err(OpenSSLX509IteratorError::CmsDerError(e));
                },
            };
            match x509_from_der(der.as_slice()) {
                Ok(c) => certificates.push(c),
                Err(e) => {
                    return Err(OpenSSLX509IteratorError::OpenSslErrorStack(e));
                },
            }
            i += 1;
        }
        Ok(certificates)
    }
}

} // verus!
