//! Parsing of the configured PEM private key into an RSA keypair.
//!
//! The cryptography itself belongs to `openssl`; this module holds the one
//! trusted call into it and the declarations that let its types appear in
//! verified signatures.

use vstd::prelude::*;

verus! {

#[verifier::external_type_specification]
#[verifier::external_body]
#[verifier::reject_recursive_types(T)]
pub struct ExRsa<T>(openssl::rsa::Rsa<T>);

#[verifier::external_type_specification]
#[verifier::external_body]
pub struct ExPrivate(openssl::pkey::Private);

#[verifier::external_type_specification]
#[verifier::external_body]
pub struct ExErrorStack(openssl::error::ErrorStack);

/// The most characters a key string handed to the parser may have. A char
/// encodes to at most four UTF-8 bytes, so this many characters surely fit
/// the foreign interface's byte limit of `i32::MAX`.
pub const PEM_CHAR_LIMIT: usize = 0x1fffffff;

/// Whether a string is a well-formed PEM-encoded PKCS#1 RSA private key
/// under an empty passphrase, as `openssl` decides it.
pub uninterp spec fn pem_parses_as_rsa(s: Seq<char>) -> bool;

/// Relies on `openssl::rsa::Rsa::private_key_from_pem_passphrase`, called
/// with an empty passphrase: it takes the passphrase from its argument and
/// never prompts, so whether a string parses as a PEM PKCS#1 RSA private
/// key under that passphrase is a function of the string alone. The length
/// bound keeps the string's UTF-8 bytes — at most four per char — within
/// the `i32::MAX` limit the call's memory BIO asserts, so the call cannot
/// panic on an admitted input.
#[verifier::external_body]
pub(crate) fn parse_rsa_private_key(pem: &str) -> (r: Result<
    openssl::rsa::Rsa<openssl::pkey::Private>,
    openssl::error::ErrorStack,
>)
    requires
        pem@.len() <= PEM_CHAR_LIMIT,
    ensures
        r is Ok <==> pem_parses_as_rsa(pem@),
{
    openssl::rsa::Rsa::private_key_from_pem_passphrase(pem.as_bytes(), b"")
}

} // verus!
