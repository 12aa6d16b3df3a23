use openssl::ec::EcKey;
use openssl::pkey::Private;
use vstd::prelude::*;

verus! {

#[verifier::external_type_specification]
#[verifier::external_body]
#[verifier::reject_recursive_types(T)]
pub struct ExEcKey<T>(EcKey<T>);

#[verifier::external_type_specification]
#[verifier::external_body]
pub struct ExPrivate(Private);

/// Relies on `EcKey::clone` in openssl, which takes another reference to the
/// same `EC_KEY` object (`EC_KEY_up_ref`, asserted to succeed): the clone is
/// the same key.
pub assume_specification<T>[ <EcKey<T> as Clone>::clone ](k: &EcKey<T>) -> (r: EcKey<T>)
    ensures
        r == *k,
;

/// The per-application replay counter.
pub type Counter = u32;

/// Identifies a relying party: a 32-byte hash of its origin.
#[derive(Clone, Copy, Debug)]
pub struct ApplicationParameter(pub [u8; 32]);

/// The freshness value of one ceremony.
#[derive(Clone, Copy, Debug)]
pub struct ChallengeParameter(pub [u8; 32]);

/// The opaque identifier returned at registration and presented at
/// authentication to select a credential.
#[derive(Clone, Copy, Debug)]
pub struct KeyHandle(pub [u8; 32]);

impl View for ApplicationParameter {
    type V = Seq<u8>;

    open spec fn view(&self) -> Seq<u8> {
        self.0@
    }
}

impl View for ChallengeParameter {
    type V = Seq<u8>;

    open spec fn view(&self) -> Seq<u8> {
        self.0@
    }
}

impl View for KeyHandle {
    type V = Seq<u8>;

    open spec fn view(&self) -> Seq<u8> {
        self.0@
    }
}

/// An elliptic-curve (P-256) key pair.
pub struct Key(pub EcKey<Private>);

impl Clone for Key {
    fn clone(&self) -> (r: Key)
        ensures
            r == *self,
    {
        Key(self.0.clone())
    }
}

/// One registered credential: the key of `application`, selected by `handle`.
pub struct ApplicationKey {
    pub application: ApplicationParameter,
    pub handle: KeyHandle,
    pub key: Key,
}

impl Clone for ApplicationKey {
    fn clone(&self) -> (r: ApplicationKey)
        ensures
            r == *self,
    {
        ApplicationKey { application: self.application, handle: self.handle, key: self.key.clone() }
    }
}

/// The identity that vouches for new registrations.
pub struct AttestationCertificate {
    pub key: Key,
}

impl Clone for AttestationCertificate {
    fn clone(&self) -> (r: AttestationCertificate)
        ensures
            r == *self,
    {
        AttestationCertificate { key: self.key.clone() }
    }
}

/// The bytes of a signature as the backend produced them.
#[derive(Debug)]
pub struct RawSignature(pub Vec<u8>);

impl RawSignature {
    pub fn as_bytes(&self) -> (r: &[u8])
        ensures
            r@ == self.0@,
    {
        self.0.as_slice()
    }
}

/// The backend could not produce a signature.
#[derive(Clone, Copy, Debug, PartialEq, Eq, Structural)]
pub enum SignError {
    Backend,
}

/// A collaborator's channel failed: the store, the randomness source, the key
/// generator or the approval prompt; or the counter has no value left to hand out.
#[derive(Clone, Copy, Debug, PartialEq, Eq, Structural)]
pub enum IoError {
    Storage,
    Randomness,
    KeyGeneration,
    Approval,
    CounterExhausted,
}

#[derive(Clone, Copy, Debug, PartialEq, Eq, Structural)]
pub enum RegisterError {
    ApprovalRequired,
    Io(IoError),
    Signing(SignError),
}

#[derive(Clone, Copy, Debug, PartialEq, Eq, Structural)]
pub enum AuthenticateError {
    ApprovalRequired,
    BadKeyHandle,
    Io(IoError),
    Signing(SignError),
}

/// The response of a successful registration.
#[derive(Debug)]
pub struct Registration {
    pub user_public_key: Vec<u8>,
    pub key_handle: KeyHandle,
    pub attestation_certificate: Vec<u8>,
    pub signature: RawSignature,
}

/// The response of a successful authentication.
#[derive(Debug)]
pub struct Authentication {
    pub counter: Counter,
    pub signature: RawSignature,
}

} // verus!
