//! Checking the signer's signature over the challenge against the enrolled
//! public key, through OpenSSL.
use vstd::prelude::*;
use crate::error::HelloAuthenticationError;

verus! {

#[verifier::external_type_specification]
#[verifier::external_body]
pub struct ExErrorStack(openssl::error::ErrorStack);

#[verifier::external_type_specification]
#[verifier::external_body]
#[verifier::reject_recursive_types(T)]
pub struct ExPKey<T>(openssl::pkey::PKey<T>);

#[verifier::external_type_specification]
#[verifier::external_body]
pub struct ExPublic(openssl::pkey::Public);

#[verifier::external_type_specification]
#[verifier::external_body]
pub struct ExVerifier<'a>(openssl::sign::Verifier<'a>);

/// Whether OpenSSL decodes these bytes as a PEM `PUBLIC KEY` block.
pub uninterp spec fn pem_public_key_decodes(pem: Seq<u8>) -> bool;

/// Whether OpenSSL accepts `signature` as a SHA-256 signature of `data` under
/// the public key that `pem` encodes.
pub uninterp spec fn sha256_signature_accepted(pem: Seq<u8>, data: Seq<u8>, signature: Seq<u8>) -> bool;

/// An enrolled public key, with the PEM text it was decoded from.
pub struct EnrolledKey {
    key: openssl::pkey::PKey<openssl::pkey::Public>,
    pem: Ghost<Seq<u8>>,
}

impl EnrolledKey {
    pub closed spec fn pem(&self) -> Seq<u8> {
        self.pem@
    }
}

/// A verification in progress: the key's PEM text and the data fed so far.
pub struct SignatureCheck<'a> {
    verifier: openssl::sign::Verifier<'a>,
    pem: Ghost<Seq<u8>>,
    data: Ghost<Seq<u8>>,
}

/// Whether a key file is small enough to hand to OpenSSL, which reads it
/// through a buffer whose length is a C `int`, and decodes there.
pub open spec fn pem_accepted(pem: Seq<u8>) -> bool {
    pem.len() <= i32::MAX && pem_public_key_decodes(pem)
}

/// Relies on `PKey::public_key_from_pem`: decodes a PEM `PUBLIC KEY` block,
/// and fails on anything else. It panics on input longer than `c_int::MAX`.
#[verifier::external_body]
fn decode_public_key(pem: &[u8]) -> (r: Result<EnrolledKey, openssl::error::ErrorStack>)
    requires
        pem@.len() <= i32::MAX,
    ensures
        r is Ok <==> pem_public_key_decodes(pem@),
        r matches Ok(k) ==> k.pem@ == pem@,
{
    let pem_view = Ghost(pem@);
    openssl::pkey::PKey::public_key_from_pem(pem).map(|key| EnrolledKey { key, pem: pem_view })
}

/// Relies on `Verifier::new` with `MessageDigest::sha256`: starts a SHA-256
/// verification under the key, with no data fed yet.
#[verifier::external_body]
fn begin_check<'a>(key: &'a EnrolledKey) -> (r: Result<SignatureCheck<'a>, openssl::error::ErrorStack>)
    ensures
        r matches Ok(c) ==> c.pem@ == key.pem@ && c.data@ == Seq::<u8>::empty(),
{
    let pem = Ghost(key.pem@);
    openssl::sign::Verifier::new(openssl::hash::MessageDigest::sha256(), &key.key).map(
        |verifier| SignatureCheck { verifier, pem, data: Ghost(Seq::empty()) },
    )
}

/// Relies on `Verifier::update`: feeds more data into the verification.
#[verifier::external_body]
fn feed(check: &mut SignatureCheck, data: &[u8]) -> (r: Result<(), openssl::error::ErrorStack>)
    ensures
        final(check).pem@ == old(check).pem@,
        r is Ok ==> final(check).data@ == old(check).data@ + data@,
{
    let fed = Ghost(check.data@ + data@);
    let r = check.verifier.update(data);
    check.data = fed;
    r
}

/// Relies on `Verifier::verify`: whether the data fed matches the signature.
#[verifier::external_body]
fn finish_check(check: &SignatureCheck, signature: &[u8]) -> (r: Result<bool, openssl::error::ErrorStack>)
    ensures
        r matches Ok(b) ==> b == sha256_signature_accepted(check.pem@, check.data@, signature@),
{
    check.verifier.verify(signature)
}

impl EnrolledKey {
    /// Decodes the PEM text of an enrolled public key: `OversizedPublicKey`
    /// where it is too long to hand to OpenSSL, `InvalidPublicKey` where
    /// OpenSSL does not decode it.
    pub fn decode(pem: &[u8]) -> (r: Result<EnrolledKey, HelloAuthenticationError>)
        ensures
            r is Ok <==> pem_accepted(pem@),
            r matches Ok(k) ==> k.pem() == pem@,
            pem@.len() > i32::MAX <==> r matches Err(HelloAuthenticationError::OversizedPublicKey),
            pem@.len() <= i32::MAX && r is Err ==> r matches Err(HelloAuthenticationError::InvalidPublicKey(_)),
    {
        if pem.len() > 2147483647 {
            return Err(HelloAuthenticationError::OversizedPublicKey);
        }
        match decode_public_key(pem) {
            Ok(k) => Ok(k),
            Err(e) => Err(HelloAuthenticationError::InvalidPublicKey(e)),
        }
    }

    /// Checks `signature` as a SHA-256 signature of exactly `data`. A
    /// signature that does not match is `Ok(false)`; a failure inside
    /// OpenSSL is an error, never taken for a mismatch.
    pub fn verify(&self, data: &[u8], signature: &[u8]) -> (r: Result<bool, HelloAuthenticationError>)
        ensures
            r matches Ok(b) ==> b == sha256_signature_accepted(self.pem(), data@, signature@),
            r is Err ==> r matches Err(HelloAuthenticationError::OpenSslError(_)),
    {
        let mut check = match begin_check(self) {
            Ok(c) => c,
            Err(e) => return Err(HelloAuthenticationError::OpenSslError(e)),
        };
        match feed(&mut check, data) {
            Ok(()) => {},
            Err(e) => return Err(HelloAuthenticationError::OpenSslError(e)),
        }
        assert(check.data@ =~= data@);
        match finish_check(&check, signature) {
            Ok(b) => Ok(b),
            Err(e) => Err(HelloAuthenticationError::OpenSslError(e)),
        }
    }
}

/// Checks `signature` over `data` against the public key in `pem`: an
/// oversized key is `OversizedPublicKey`, an undecodable one
/// `InvalidPublicKey`, a failure inside OpenSSL is `OpenSslError`, and
/// otherwise the result says whether the signature holds.
pub fn verify_signature(pem: &[u8], data: &[u8], signature: &[u8]) -> (r: Result<bool, HelloAuthenticationError>)
    ensures
        pem@.len() > i32::MAX <==> r matches Err(HelloAuthenticationError::OversizedPublicKey),
        pem@.len() <= i32::MAX && !pem_public_key_decodes(pem@) <==> r matches Err(
            HelloAuthenticationError::InvalidPublicKey(_),
        ),
        pem_accepted(pem@) && r is Err ==> r matches Err(HelloAuthenticationError::OpenSslError(_)),
        r matches Ok(b) ==> b == sha256_signature_accepted(pem@, data@, signature@),
{
    let key = EnrolledKey::decode(pem)?;
    key.verify(data, signature)
}

/// Relies on the `Debug` impl of `openssl::error::ErrorStack`: a description
/// of the errors that OpenSSL reported.
#[verifier::external_body]
pub(crate) fn stack_text(stack: &openssl::error::ErrorStack) -> (r: String) {
    format!("{:?}", stack)
}

} // verus!
