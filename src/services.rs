use crate::types::{
    ApplicationParameter, KeyHandle, Counter, Key, ApplicationKey, AttestationCertificate,
    RawSignature, SignError, IoError,
};
use vstd::prelude::*;

verus! {

/// What a secret store holds: the registered keys by (application, handle), the
/// last counter value handed out for each application, and the attestation
/// certificate slot.
pub struct StoreModel {
    pub keys: Map<(Seq<u8>, Seq<u8>), Key>,
    pub counters: Map<Seq<u8>, Counter>,
    pub attestation: Option<AttestationCertificate>,
}

/// The counter value that the next ceremony for `application` is given: 0 for
/// an application never counted, else one past the last value handed out.
pub open spec fn next_counter(counters: Map<Seq<u8>, Counter>, application: Seq<u8>) -> int {
    if counters.contains_key(application) {
        counters[application] + 1
    } else {
        0
    }
}

/// Whether `handle` selects a key of `application` in the store.
pub open spec fn handle_valid(m: StoreModel, application: Seq<u8>, handle: Seq<u8>) -> bool {
    m.keys.contains_key((application, handle))
}

/// The store after `key` is registered: upserted under its own
/// (application, handle), beside the application's other credentials.
pub open spec fn with_key(m: StoreModel, key: ApplicationKey) -> StoreModel {
    StoreModel {
        keys: m.keys.insert((key.application@, key.handle@), key.key),
        ..m
    }
}

/// The store after one ceremony for `application` has taken its counter value.
pub open spec fn counted(m: StoreModel, application: Seq<u8>) -> StoreModel {
    StoreModel {
        counters: m.counters.insert(application, next_counter(m.counters, application) as Counter),
        ..m
    }
}

/// Asks the user whether a ceremony for an application may go ahead.
pub trait ApprovalService {
    /// Whether the approval channel answers: a question fails exactly when it
    /// does not.
    spec fn reliable(&self) -> bool;

    /// The error that the approval channel reports when it fails.
    spec fn channel_error(&self) -> IoError;

    /// The answer given to a registration for `application`.
    spec fn grants_registration(&self, application: Seq<u8>) -> bool;

    /// The answer given to an authentication for `application`.
    spec fn grants_authentication(&self, application: Seq<u8>) -> bool;

    fn approve_registration(&self, application: &ApplicationParameter) -> (r: Result<bool, IoError>)
        ensures
            r is Ok ==> r->Ok_0 == self.grants_registration(application@),
            r is Err ==> r->Err_0 == self.channel_error(),
            r is Ok <==> self.reliable(),
    ;

    fn approve_authentication(&self, application: &ApplicationParameter) -> (r: Result<bool, IoError>)
        ensures
            r is Ok ==> r->Ok_0 == self.grants_authentication(application@),
            r is Err ==> r->Err_0 == self.channel_error(),
            r is Ok <==> self.reliable(),
    ;
}

/// Generates keys and produces signatures.
pub trait CryptoOperations {
    /// A fresh key pair for `application`, with a fresh handle.
    fn generate_application_key(&self, application: &ApplicationParameter) -> (r: Result<
        ApplicationKey,
        IoError,
    >)
        ensures
            r is Ok ==> r->Ok_0.application@ == application@,
    ;

    /// A fresh long-lived attestation key pair.
    fn generate_attestation_certificate(&self) -> (r: Result<AttestationCertificate, IoError>);

    /// The encoding of the public point of `key`.
    spec fn public_key_of(&self, key: Key) -> Seq<u8>;

    /// Whether `signature` is a signature by `key` over `data`.
    spec fn signs(&self, key: Key, data: Seq<u8>, signature: Seq<u8>) -> bool;

    /// The public point of `key`, uncompressed.
    fn public_key(&self, key: &Key) -> (r: Result<Vec<u8>, SignError>)
        ensures
            r is Ok ==> r->Ok_0@ == self.public_key_of(*key),
    ;

    /// A signature by `key` over `data`.
    fn sign(&self, key: &Key, data: &[u8]) -> (r: Result<RawSignature, SignError>)
        ensures
            r is Ok ==> self.signs(*key, data@, r->Ok_0.0@),
    ;
}

/// Holds the registered keys, the counters and the attestation certificate.
pub trait SecretStore {
    /// What the store holds.
    spec fn model(&self) -> StoreModel;

    /// Whether the storage medium answers: a request fails exactly when it
    /// does not.
    spec fn reliable(&self) -> bool;

    /// The error that the storage medium reports when it fails.
    spec fn storage_error(&self) -> IoError;

    fn add_application_key(&mut self, key: &ApplicationKey) -> (r: Result<(), IoError>)
        ensures
            r is Ok ==> final(self).model() == with_key(old(self).model(), *key),
            r is Err ==> final(self).model() == old(self).model() && r->Err_0 == old(
                self,
            ).storage_error(),
            r is Ok <==> old(self).reliable(),
            final(self).reliable() == old(self).reliable(),
            final(self).storage_error() == old(self).storage_error(),
    ;

    fn get_attestation_certificate(&self) -> (r: Result<Option<AttestationCertificate>, IoError>)
        ensures
            r is Ok ==> r->Ok_0 == self.model().attestation,
            r is Err ==> r->Err_0 == self.storage_error(),
            r is Ok <==> self.reliable(),
    ;

    /// Hands out the application's next counter value and records it as used.
    fn get_then_increment_counter(&mut self, application: &ApplicationParameter) -> (r: Result<
        Counter,
        IoError,
    >)
        ensures
            r is Ok ==> r->Ok_0 == next_counter(old(self).model().counters, application@)
                && final(self).model() == counted(old(self).model(), application@),
            r is Err ==> final(self).model() == old(self).model(),
            r is Err ==> r->Err_0 == (if old(self).reliable() {
                IoError::CounterExhausted
            } else {
                old(self).storage_error()
            }),
            r is Ok <==> old(self).reliable() && next_counter(old(self).model().counters, application@)
                <= u32::MAX,
            final(self).reliable() == old(self).reliable(),
            final(self).storage_error() == old(self).storage_error(),
    ;

    /// The key registered for exactly this application and handle, if any.
    fn retrieve_application_key(
        &self,
        application: &ApplicationParameter,
        handle: &KeyHandle,
    ) -> (r: Result<Option<ApplicationKey>, IoError>)
        ensures
            r is Ok ==> (r->Ok_0 is Some <==> handle_valid(self.model(), application@, handle@)),
            r is Ok && r->Ok_0 is Some ==> ({
                let k = r->Ok_0->Some_0;
                k.application@ == application@ && k.handle@ == handle@
                    && k.key == self.model().keys[(application@, handle@)]
            }),
            r is Err ==> r->Err_0 == self.storage_error(),
            r is Ok <==> self.reliable(),
    ;

    fn set_attestation_certificate(&mut self, certificate: &AttestationCertificate) -> (r: Result<
        (),
        IoError,
    >)
        ensures
            r is Ok ==> final(self).model() == (StoreModel {
                attestation: Some(*certificate),
                ..old(self).model()
            }),
            r is Err ==> final(self).model() == old(self).model() && r->Err_0 == old(
                self,
            ).storage_error(),
            r is Ok <==> old(self).reliable(),
            final(self).reliable() == old(self).reliable(),
            final(self).storage_error() == old(self).storage_error(),
    ;
}

} // verus!
