//! DER and PEM decoding, as the `openssl` crate does it.
//!
//! The crate calls into the OpenSSL library that the program is linked
//! with, and its errors are read off a queue that the thread keeps. What a
//! call returns is therefore not held to be settled by its arguments, and
//! nothing is claimed of it.

use vstd::prelude::*;

verus! {

#[verifier::external_type_specification]
#[verifier::external_body]
pub struct ExX509(openssl::x509::X509);

#[verifier::external_type_specification]
#[verifier::external_body]
pub struct ExErrorStack(openssl::error::ErrorStack);

/// The longest input that `X509::stack_from_pem` takes: it asserts that the
/// length fits the C type `int`.
pub const PEM_MAX_LEN: usize = 0x7fff_ffff;

/// `X509::from_der`: the certificate that OpenSSL reads from `src`, or the
/// errors that it reported.
#[verifier::external_body]
pub(crate) fn x509_from_der(src: &[u8]) -> Result<openssl::x509::X509, openssl::error::ErrorStack> {
    openssl::x509::X509::from_der(src)
}

/// `X509::stack_from_pem`: the certificates that OpenSSL reads from the PEM
/// blocks in `src`, or the errors that it reported. The crate panics on
/// input longer than `PEM_MAX_LEN`; such input is not handed to it.
#[verifier::external_body]
pub(crate) fn x509_stack_from_pem(src: &[u8]) -> Result<
    Vec<openssl::x509::X509>,
    openssl::error::ErrorStack,
>
    requires
        src@.len() <= PEM_MAX_LEN,
{
    openssl::x509::X509::stack_from_pem(src)
}

/// `ErrorStack` as `Display` prints it.
#[verifier::external_body]
pub(crate) fn error_stack_to_string(errors: &openssl::error::ErrorStack) -> String {
    errors.to_string()
}

} // verus!
