use crate::services::CryptoOperations;
use crate::types::{
    ApplicationParameter, KeyHandle, Key, ApplicationKey, AttestationCertificate, RawSignature,
    SignError, IoError,
};
use openssl::bn::BigNumContext;
use openssl::ec::{EcGroup, EcKey, PointConversionForm};
use openssl::hash::MessageDigest;
use openssl::nid::Nid;
use openssl::pkey::{PKey, Private};
use openssl::sign::Signer;
use rand::RngCore;
use vstd::prelude::*;

verus! {

/// Relies on openssl's `EcGroup::from_curve_name` and `EcKey::generate`: a new
/// P-256 key pair, or `None` where the library reports an error.
#[verifier::external_body]
fn generate_p256_key() -> (r: Option<EcKey<Private>>) {
    match EcGroup::from_curve_name(Nid::X9_62_PRIME256V1) {
        Ok(group) => EcKey::generate(&group).ok(),
        Err(_) => None,
    }
}

/// Relies on rand's `OsRng::try_fill_bytes`: 32 bytes from the operating
/// system's secure generator, or `None` where it reports an error.
#[verifier::external_body]
fn os_random_bytes() -> (r: Option<[u8; 32]>) {
    let mut bytes = [0u8; 32];
    match rand::rngs::OsRng.try_fill_bytes(&mut bytes) {
        Ok(()) => Some(bytes),
        Err(_) => None,
    }
}

/// Whether `signature` is an ECDSA signature with SHA-256 by `key` over
/// `data`. Signing draws a fresh nonce, so this names a property of every
/// signature openssl's signer returns, not one result.
pub uninterp spec fn ecdsa_sha256_signature(key: EcKey<Private>, data: Seq<u8>, signature: Seq<u8>) -> bool;

/// The uncompressed encoding of the public point of `key`; it depends on the
/// key alone.
pub uninterp spec fn uncompressed_point(key: EcKey<Private>) -> Seq<u8>;

/// Relies on openssl's `Signer` (`EVP_DigestSign*`): an ECDSA signature with
/// SHA-256 by `key` over `data`, or `None` where the library reports an error.
#[verifier::external_body]
fn ecdsa_sha256_sign(key: &EcKey<Private>, data: &[u8]) -> (r: Option<Vec<u8>>)
    ensures
        r is Some ==> ecdsa_sha256_signature(*key, data@, r->Some_0@),
{
    let pkey = PKey::from_ec_key(key.clone()).ok()?;
    let mut signer = Signer::new(MessageDigest::sha256(), &pkey).ok()?;
    signer.update(data).ok()?;
    signer.sign_to_vec().ok()
}

/// Relies on openssl's `EcPointRef::to_bytes`: the public point of `key` in
/// uncompressed form, or `None` where the library reports an error.
#[verifier::external_body]
fn uncompressed_public_point(key: &EcKey<Private>) -> (r: Option<Vec<u8>>)
    ensures
        r is Some ==> r->Some_0@ == uncompressed_point(*key),
{
    let mut ctx = BigNumContext::new().ok()?;
    key.public_key().to_bytes(key.group(), PointConversionForm::UNCOMPRESSED, &mut ctx).ok()
}

/// The cryptographic backend: P-256 keys from openssl, key handles from the
/// operating system's secure random generator.
pub struct SecureCryptoOperations;

impl SecureCryptoOperations {
    fn generate_key() -> (r: Result<Key, IoError>)
        ensures
            r matches Err(e) ==> e == IoError::KeyGeneration,
    {
        match generate_p256_key() {
            Some(k) => Ok(Key(k)),
            None => Err(IoError::KeyGeneration),
        }
    }

    fn generate_key_handle() -> (r: Result<KeyHandle, IoError>)
        ensures
            r matches Err(e) ==> e == IoError::Randomness,
    {
        match os_random_bytes() {
            Some(bytes) => Ok(KeyHandle(bytes)),
            None => Err(IoError::Randomness),
        }
    }
}

impl CryptoOperations for SecureCryptoOperations {
    open spec fn public_key_of(&self, key: Key) -> Seq<u8> {
        uncompressed_point(key.0)
    }

    open spec fn signs(&self, key: Key, data: Seq<u8>, signature: Seq<u8>) -> bool {
        ecdsa_sha256_signature(key.0, data, signature)
    }

    fn generate_application_key(&self, application: &ApplicationParameter) -> (r: Result<
        ApplicationKey,
        IoError,
    >) {
        let key = match Self::generate_key() {
            Ok(k) => k,
            Err(e) => return Err(e),
        };
        let handle = match Self::generate_key_handle() {
            Ok(h) => h,
            Err(e) => return Err(e),
        };
        Ok(ApplicationKey { application: *application, handle, key })
    }

    fn generate_attestation_certificate(&self) -> (r: Result<AttestationCertificate, IoError>) {
        match Self::generate_key() {
            Ok(key) => Ok(AttestationCertificate { key }),
            Err(e) => Err(e),
        }
    }

    fn public_key(&self, key: &Key) -> (r: Result<Vec<u8>, SignError>) {
        match uncompressed_public_point(&key.0) {
            Some(p) => Ok(p),
            None => Err(SignError::Backend),
        }
    }

    fn sign(&self, key: &Key, data: &[u8]) -> (r: Result<RawSignature, SignError>) {
        match ecdsa_sha256_sign(&key.0, data) {
            Some(s) => Ok(RawSignature(s)),
            None => Err(SignError::Backend),
        }
    }
}

} // verus!
