//! DER, PEM and PKCS7 decoding, as the `cms` crate and the crates it builds
//! on (`x509-cert`, `der`) do it.

use cms::cert::x509::der::asn1::SetOfVec;
use cms::cert::x509::der::{Decode, Encode, Error};
use cms::cert::{CertificateChoices, OtherCertificateFormat};
use cms::content_info::ContentInfo;
use cms::signed_data::SignedData;
use vstd::prelude::*;

verus! {

/// An X.509 certificate as the `x509-cert` crate decodes it.
///
/// The crate's own type takes a parameter bound by a trait of the crate,
/// which cannot be made known to the verifier, so the certificate is held
/// in a struct of the library that the verifier does not look into. The
/// library carries certificates and never reads one; the field is for
/// callers.
#[verifier::external_body]
pub struct Certificate(pub cms::cert::x509::Certificate);

#[verifier::external_type_specification]
#[verifier::external_body]
pub struct ExError(Error);

#[verifier::external_type_specification]
#[verifier::external_body]
pub struct ExContentInfo(ContentInfo);

#[verifier::external_type_specification]
#[verifier::external_body]
pub struct ExSignedData(SignedData);

#[verifier::external_type_specification]
#[verifier::external_body]
pub struct ExOtherCertificateFormat(OtherCertificateFormat);

/// One member of the certificate set of a PKCS7 bundle.
pub enum CertificateChoice {
    /// A plain X.509 certificate.
    Certificate(Certificate),
    /// A certificate in some other format.
    Other(OtherCertificateFormat),
}

/// Whether `src` holds a byte other than a carriage return or a line feed.
pub open spec fn has_body(src: Seq<u8>) -> bool {
    exists|i: int| 0 <= i < src.len() && #[trigger] src[i] != 13 && src[i] != 10
}

/// What `Certificate::from_der` makes of `src`.
pub uninterp spec fn der_certificate(src: Seq<u8>) -> Result<Certificate, Error>;

/// What `Certificate::load_pem_chain` makes of `src`.
pub uninterp spec fn pem_certificates(src: Seq<u8>) -> Result<Seq<Certificate>, Error>;

/// What `ContentInfo::from_der` makes of `src`.
pub uninterp spec fn der_content_info(src: Seq<u8>) -> Result<ContentInfo, Error>;

/// The DER encoding of the content that a `ContentInfo` wraps.
pub uninterp spec fn content_der(info: ContentInfo) -> Result<Seq<u8>, Error>;

/// What `SignedData::from_der` makes of `src`.
pub uninterp spec fn der_signed_data(src: Seq<u8>) -> Result<SignedData, Error>;

/// The members of the `certificates` field of a `SignedData`, in the order
/// in which the set holds them, or `None` where the field is absent.
pub uninterp spec fn certificate_set(signed_data: SignedData) -> Option<Seq<CertificateChoice>>;

/// The DER encoding of a certificate.
pub uninterp spec fn certificate_der(certificate: Certificate) -> Result<Seq<u8>, Error>;

/// What `der::Error` prints as.
pub uninterp spec fn der_error_text(error: Error) -> Seq<char>;

/// `Certificate::from_der`: the certificate that the whole of `src` encodes
/// in DER, or the crate's error. The answer depends on the bytes alone.
#[verifier::external_body]
pub(crate) fn certificate_from_der(src: &[u8]) -> (r: Result<Certificate, Error>)
    ensures
        r == der_certificate(src@),
{
    cms::cert::x509::Certificate::from_der(src).map(Certificate)
}

/// `Certificate::load_pem_chain`: the certificates of the PEM blocks in
/// `src`, in order, or the crate's error. The answer depends on the bytes
/// alone. On input that is empty once trailing line ends are taken off, the
/// crate subtracts from zero; such input is not handed to it.
#[verifier::external_body]
pub(crate) fn load_pem_chain(src: &[u8]) -> (r: Result<Vec<Certificate>, Error>)
    requires
        has_body(src@),
    ensures
        match r {
            Ok(certificates) => pem_certificates(src@) == Ok::<_, Error>(certificates@),
            Err(e) => pem_certificates(src@) == Err::<Seq<Certificate>, _>(e),
        },
{
    cms::cert::x509::Certificate::load_pem_chain(src).map(
        |chain| chain.into_iter().map(Certificate).collect(),
    )
}

/// `ContentInfo::from_der`: the `ContentInfo` that the whole of `src`
/// encodes in DER, or the crate's error.
#[verifier::external_body]
pub(crate) fn content_info_from_der(src: &[u8]) -> (r: Result<ContentInfo, Error>)
    ensures
        r == der_content_info(src@),
{
    ContentInfo::from_der(src)
}

/// `Any::to_der` on the content of a `ContentInfo`: the content encoded
/// again, or the crate's error.
#[verifier::external_body]
pub(crate) fn content_to_der(info: &ContentInfo) -> (r: Result<Vec<u8>, Error>)
    ensures
        match r {
            Ok(bytes) => content_der(*info) == Ok::<_, Error>(bytes@),
            Err(e) => content_der(*info) == Err::<Seq<u8>, _>(e),
        },
{
    info.content.to_der()
}

/// `SignedData::from_der`: the `SignedData` that the whole of `src` encodes
/// in DER, or the crate's error.
#[verifier::external_body]
pub(crate) fn signed_data_from_der(src: &[u8]) -> (r: Result<SignedData, Error>)
    ensures
        r == der_signed_data(src@),
{
    SignedData::from_der(src)
}

/// `SetOfVec::into_vec` on the `certificates` field of a `SignedData`: the
/// members of the set in the order in which it holds them, each told apart
/// by its variant, or `None` where the field is absent.
#[verifier::external_body]
pub(crate) fn certificate_choices(signed_data: SignedData) -> (r: Option<Vec<CertificateChoice>>)
    ensures
        match r {
            Some(choices) => certificate_set(signed_data) == Some(choices@),
            None => certificate_set(signed_data) is None,
        },
{
    signed_data.certificates.map(
        |set| SetOfVec::from(set).into_vec().into_iter().map(
            |choice| match choice {
                CertificateChoices::Certificate(c) => CertificateChoice::Certificate(Certificate(c)),
                CertificateChoices::Other(other) => CertificateChoice::Other(other),
            },
        ).collect(),
    )
}

/// `Certificate::to_der`: the certificate encoded in DER, or the crate's
/// error.
#[verifier::external_body]
pub(crate) fn certificate_to_der(certificate: &Certificate) -> (r: Result<Vec<u8>, Error>)
    ensures
        match r {
            Ok(bytes) => certificate_der(*certificate) == Ok::<_, Error>(bytes@),
            Err(e) => certificate_der(*certificate) == Err::<Seq<u8>, _>(e),
        },
{
    certificate.0.to_der()
}

/// `der::Error` as `Display` prints it.
#[verifier::external_body]
pub(crate) fn der_error_to_string(error: &Error) -> (text: String)
    ensures
        text@ == der_error_text(*error),
{
    error.to_string()
}

} // verus!
