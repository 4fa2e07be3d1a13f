//! The crypt32 constants that the operations hand to calls.

use vstd::prelude::*;
use windows_sys::Win32::Security::Cryptography::{
    CERT_FIND_HASH, CERT_KEY_PROV_INFO_PROP_ID, CERT_NAME_ISSUER_FLAG,
    CERT_NAME_SIMPLE_DISPLAY_TYPE, CERT_SHA1_HASH_PROP_ID, CERT_STORE_MAXIMUM_ALLOWED_FLAG,
    CERT_STORE_READONLY_FLAG, CERT_SYSTEM_STORE_CURRENT_USER, CERT_SYSTEM_STORE_LOCAL_MACHINE,
    PKCS_7_ASN_ENCODING, X509_ASN_ENCODING,
};

verus! {

/// The value of `windows_sys`'s `CERT_SYSTEM_STORE_CURRENT_USER`.
#[verifier::external_body]
pub(crate) fn system_store_current_user() -> (flag: u32)
    ensures
        flag == 0x10000,
{
    CERT_SYSTEM_STORE_CURRENT_USER
}

/// The value of `windows_sys`'s `CERT_SYSTEM_STORE_LOCAL_MACHINE`.
#[verifier::external_body]
pub(crate) fn system_store_local_machine() -> (flag: u32)
    ensures
        flag == 0x20000,
{
    CERT_SYSTEM_STORE_LOCAL_MACHINE
}

/// The value of `windows_sys`'s `CERT_STORE_READONLY_FLAG`.
#[verifier::external_body]
pub(crate) fn store_readonly() -> (flag: u32)
    ensures
        flag == 0x8000,
{
    CERT_STORE_READONLY_FLAG
}

/// The value of `windows_sys`'s `CERT_STORE_MAXIMUM_ALLOWED_FLAG`.
#[verifier::external_body]
pub(crate) fn store_maximum_allowed() -> (flag: u32)
    ensures
        flag == 0x1000,
{
    CERT_STORE_MAXIMUM_ALLOWED_FLAG
}

/// The value of `windows_sys`'s `X509_ASN_ENCODING`.
#[verifier::external_body]
fn x509_asn_encoding() -> (encoding: u32)
    ensures
        encoding == 1,
{
    X509_ASN_ENCODING
}

/// The value of `windows_sys`'s `PKCS_7_ASN_ENCODING`.
#[verifier::external_body]
fn pkcs_7_asn_encoding() -> (encoding: u32)
    ensures
        encoding == 0x10000,
{
    PKCS_7_ASN_ENCODING
}

/// The value of `windows_sys`'s `CERT_FIND_HASH`.
#[verifier::external_body]
pub(crate) fn find_hash() -> (kind: u32)
    ensures
        kind == 0x10000,
{
    CERT_FIND_HASH
}

/// The value of `windows_sys`'s `CERT_KEY_PROV_INFO_PROP_ID`.
#[verifier::external_body]
pub(crate) fn key_prov_info_property() -> (property: u32)
    ensures
        property == 2,
{
    CERT_KEY_PROV_INFO_PROP_ID
}

/// The value of `windows_sys`'s `CERT_SHA1_HASH_PROP_ID`.
#[verifier::external_body]
pub(crate) fn sha1_hash_property() -> (property: u32)
    ensures
        property == 3,
{
    CERT_SHA1_HASH_PROP_ID
}

/// The value of `windows_sys`'s `CERT_NAME_SIMPLE_DISPLAY_TYPE`.
#[verifier::external_body]
pub(crate) fn name_simple_display() -> (kind: u32)
    ensures
        kind == 4,
{
    CERT_NAME_SIMPLE_DISPLAY_TYPE
}

/// The value of `windows_sys`'s `CERT_NAME_ISSUER_FLAG`.
#[verifier::external_body]
pub(crate) fn name_issuer() -> (flag: u32)
    ensures
        flag == 1,
{
    CERT_NAME_ISSUER_FLAG
}

/// The encodings that certificates are looked up and built with: X.509, in
/// PKCS #7 messages.
pub(crate) fn certificate_encodings() -> (encodings: u32)
    ensures
        encodings == 0x10001,
{
    assert(1u32 | 0x10000u32 == 0x10001u32) by (bit_vector);
    x509_asn_encoding() | pkcs_7_asn_encoding()
}

} // verus!
