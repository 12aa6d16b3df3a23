use crate::payload::{
    registration_payload, authentication_payload, registration_message, authentication_message,
};
use crate::services::{
    StoreModel, ApprovalService, CryptoOperations, SecretStore, next_counter, handle_valid,
    with_key, counted,
};
use crate::types::{
    ApplicationParameter, ChallengeParameter, KeyHandle, ApplicationKey, AttestationCertificate, IoError,
    RegisterError, AuthenticateError, Registration, Authentication,
};
use vstd::prelude::*;

verus! {

/// The protocol version that this authenticator speaks.
pub open spec fn version_string() -> Seq<char> {
    seq!['U', '2', 'F', '_', 'V', '2']
}

/// What building an engine on a store holding `before` may give: `ok` tells
/// whether it succeeded, `certificate` is the engine's attestation certificate
/// and `after` what the store then holds. A reliable store whose certificate
/// slot is full always gives success, with the stored certificate; an empty
/// slot is filled with the new engine's certificate.
pub open spec fn built(
    before: StoreModel,
    reliable: bool,
    ok: bool,
    certificate: AttestationCertificate,
    after: StoreModel,
) -> bool {
    &&& (reliable && before.attestation is Some ==> ok)
    &&& (ok ==> after == StoreModel { attestation: Some(certificate), ..before })
    &&& (ok && before.attestation is Some ==> certificate == before.attestation->Some_0)
}

/// The authenticator: runs the ceremonies over the injected approval service,
/// cryptographic backend and secret store.
pub struct SoftU2F<'a, A: ApprovalService, C: CryptoOperations, S: SecretStore> {
    attestation_certificate: AttestationCertificate,
    approval: &'a A,
    operations: &'a C,
    storage: &'a mut S,
}

impl<'a, A: ApprovalService, C: CryptoOperations, S: SecretStore> SoftU2F<'a, A, C, S> {
    /// What the store holds now.
    pub closed spec fn store(&self) -> StoreModel {
        self.storage.model()
    }

    /// The approval service that gates the ceremonies.
    pub closed spec fn approver(&self) -> A {
        *self.approval
    }

    /// The cryptographic backend.
    pub closed spec fn backend(&self) -> C {
        *self.operations
    }

    /// The error that the store reports when it fails.
    pub closed spec fn store_error(&self) -> IoError {
        self.storage.storage_error()
    }

    /// Whether the store answers every request.
    pub closed spec fn store_reliable(&self) -> bool {
        self.storage.reliable()
    }

    /// The certificate that attests new registrations.
    pub closed spec fn attestation(&self) -> AttestationCertificate {
        self.attestation_certificate
    }

    /// The store holds the certificate that this engine attests with.
    pub open spec fn wf(&self) -> bool {
        self.store().attestation == Some(self.attestation())
    }

    /// Builds an engine; takes the store's attestation certificate, or
    /// generates one and persists it when the slot is empty.
    pub fn new(approval: &'a A, operations: &'a C, storage: &'a mut S) -> (r: Result<
        SoftU2F<'a, A, C, S>,
        IoError,
    >)
        ensures
            built(
                old(storage).model(),
                old(storage).reliable(),
                r is Ok,
                r->Ok_0.attestation(),
                r->Ok_0.store(),
            ),
            r is Ok ==> ({
                let e = r->Ok_0;
                &&& e.wf()
                &&& e.approver() == *approval
                &&& e.backend() == *operations
                &&& e.store_reliable() == old(storage).reliable()
                &&& e.store_error() == old(storage).storage_error()
            }),
            r is Err && old(storage).model().attestation is Some ==> r->Err_0 == old(storage).storage_error(),
            r is Err ==> final(storage).model() == old(storage).model(),
            !old(storage).reliable() ==> r is Err && r->Err_0 == old(storage).storage_error(),
    {
        let attestation_certificate = match Self::get_attestation_certificate(operations, storage) {
            Ok(c) => c,
            Err(e) => return Err(e),
        };
        Ok(SoftU2F { attestation_certificate, approval, operations, storage })
    }

    fn get_attestation_certificate(operations: &C, storage: &mut S) -> (r: Result<
        AttestationCertificate,
        IoError,
    >)
        ensures
            r is Ok ==> final(storage).model() == (StoreModel {
                attestation: Some(r->Ok_0),
                ..old(storage).model()
            }),
            r is Ok && old(storage).model().attestation is Some ==> r->Ok_0 == old(storage).model().attestation->Some_0,
            r is Err ==> final(storage).model() == old(storage).model(),
            r is Err && old(storage).model().attestation is Some ==> r->Err_0 == old(storage).storage_error(),
            old(storage).reliable() && old(storage).model().attestation is Some ==> r is Ok,
            !old(storage).reliable() ==> r is Err && r->Err_0 == old(storage).storage_error(),
            final(storage).reliable() == old(storage).reliable(),
            final(storage).storage_error() == old(storage).storage_error(),
    {
        match storage.get_attestation_certificate() {
            Ok(Some(c)) => {
                assert(storage.model() == (StoreModel { attestation: Some(c), ..storage.model() }));
                return Ok(c);
            },
            Ok(None) => {},
            Err(e) => return Err(e),
        }
        let attestation_certificate = match operations.generate_attestation_certificate() {
            Ok(c) => c,
            Err(e) => return Err(e),
        };
        match storage.set_attestation_certificate(&attestation_certificate) {
            Ok(()) => Ok(attestation_certificate),
            Err(e) => Err(e),
        }
    }

    /// Ends the engine and hands back the store it was built on.
    pub fn into_storage(self) -> (r: &'a mut S)
        ensures
            r.model() == self.store(),
            r.reliable() == self.store_reliable(),
            r.storage_error() == self.store_error(),
    {
        self.storage
    }

    /// The certificate that attests new registrations.
    pub fn attestation_certificate(&self) -> (r: &AttestationCertificate)
        ensures
            *r == self.attestation(),
    {
        &self.attestation_certificate
    }

    /// Registers a new key for `application`, once the user approves. The key
    /// is stored before the attestation is signed; a signing failure after that
    /// leaves it registered, and the caller sees the error.
    pub fn register(&mut self, application: &ApplicationParameter, challenge: &ChallengeParameter) -> (r:
        Result<Registration, RegisterError>)
        requires
            old(self).wf(),
        ensures
            final(self).wf(),
            final(self).approver() == old(self).approver(),
            final(self).backend() == old(self).backend(),
            final(self).attestation() == old(self).attestation(),
            final(self).store_reliable() == old(self).store_reliable(),
            final(self).store_error() == old(self).store_error(),
            final(self).store().counters == old(self).store().counters,
            r is Ok ==> ({
                let reg = r->Ok_0;
                &&& old(self).approver().reliable()
                &&& old(self).approver().grants_registration(application@)
                &&& exists|k: ApplicationKey|
                    k.application@ == application@ && k.handle@ == reg.key_handle@
                        && final(self).store() == with_key(old(self).store(), k)
                        && reg.user_public_key@ == old(self).backend().public_key_of(k.key)
                &&& old(self).backend().signs(
                    old(self).attestation().key,
                    registration_message(
                        application@,
                        challenge@,
                        reg.key_handle@,
                        reg.user_public_key@,
                    ),
                    reg.signature.0@,
                )
            }),
            !old(self).approver().reliable() ==> (r matches Err(RegisterError::Io(e)) && e == old(
                self,
            ).approver().channel_error()),
            old(self).approver().reliable() && !old(self).approver().grants_registration(
                application@,
            ) ==> r matches Err(RegisterError::ApprovalRequired),
            r matches Err(RegisterError::ApprovalRequired) ==> old(self).approver().reliable()
                && !old(self).approver().grants_registration(application@),
            r matches Err(RegisterError::Io(_)) ==> final(self).store() == old(self).store(),
            r matches Err(RegisterError::Signing(_)) ==> old(self).approver().reliable() && old(
                self,
            ).approver().grants_registration(application@) && exists|k: ApplicationKey|
                k.application@ == application@ && final(self).store() == with_key(
                    old(self).store(),
                    k,
                ),
            !(old(self).approver().reliable() && old(self).approver().grants_registration(
                application@,
            )) ==> final(self).store() == old(self).store(),
    {
        match self.approval.approve_registration(application) {
            Ok(true) => {},
            Ok(false) => return Err(RegisterError::ApprovalRequired),
            Err(e) => return Err(RegisterError::Io(e)),
        }
        let application_key = match self.operations.generate_application_key(application) {
            Ok(k) => k,
            Err(e) => return Err(RegisterError::Io(e)),
        };
        match self.storage.add_application_key(&application_key) {
            Ok(()) => {},
            Err(e) => return Err(RegisterError::Io(e)),
        }
        let user_public_key = match self.operations.public_key(&application_key.key) {
            Ok(p) => p,
            Err(e) => return Err(RegisterError::Signing(e)),
        };
        let message = registration_payload(
            application,
            challenge,
            &application_key.handle,
            user_public_key.as_slice(),
        );
        let signature = match self.operations.sign(
            &self.attestation_certificate.key,
            message.as_slice(),
        ) {
            Ok(s) => s,
            Err(e) => return Err(RegisterError::Signing(e)),
        };
        Ok(
            Registration {
                user_public_key,
                key_handle: application_key.handle,
                attestation_certificate: Vec::new(),
                signature,
            },
        )
    }

    /// Signs `challenge` with the key that `key_handle` selects for
    /// `application`, once the user approves; each success takes the
    /// application's next counter value.
    pub fn authenticate(
        &mut self,
        application: &ApplicationParameter,
        challenge: &ChallengeParameter,
        key_handle: &KeyHandle,
    ) -> (r: Result<Authentication, AuthenticateError>)
        requires
            old(self).wf(),
        ensures
            final(self).wf(),
            final(self).approver() == old(self).approver(),
            final(self).backend() == old(self).backend(),
            final(self).attestation() == old(self).attestation(),
            final(self).store_reliable() == old(self).store_reliable(),
            final(self).store_error() == old(self).store_error(),
            r is Ok ==> ({
                let a = r->Ok_0;
                &&& old(self).approver().grants_authentication(application@)
                &&& handle_valid(old(self).store(), application@, key_handle@)
                &&& a.counter == next_counter(old(self).store().counters, application@)
                &&& final(self).store() == counted(old(self).store(), application@)
                &&& old(self).backend().signs(
                    old(self).store().keys[(application@, key_handle@)],
                    authentication_message(application@, a.counter, challenge@),
                    a.signature.0@,
                )
            }),
            !old(self).approver().reliable() ==> (r matches Err(AuthenticateError::Io(e)) && e
                == old(self).approver().channel_error()) && final(self).store() == old(self).store(),
            old(self).approver().reliable() && old(self).approver().grants_authentication(
                application@,
            ) && !old(self).store_reliable() ==> (r matches Err(AuthenticateError::Io(e)) && e
                == old(self).store_error()) && final(self).store() == old(self).store(),
            old(self).approver().reliable() && old(self).store_reliable() && old(
                self,
            ).approver().grants_authentication(application@) && handle_valid(
                old(self).store(),
                application@,
                key_handle@,
            ) && next_counter(old(self).store().counters, application@) > u32::MAX ==> (r matches Err(
                AuthenticateError::Io(e),
            ) && e == IoError::CounterExhausted) && final(self).store() == old(self).store(),
            r matches Err(AuthenticateError::ApprovalRequired) ==> !old(self).approver().grants_authentication(application@),
            r matches Err(AuthenticateError::BadKeyHandle) ==> old(self).approver().grants_authentication(application@) && !handle_valid(
                old(self).store(),
                application@,
                key_handle@,
            ),
            old(self).approver().reliable() && !old(self).approver().grants_authentication(
                application@,
            ) ==> r matches Err(AuthenticateError::ApprovalRequired),
            old(self).approver().reliable() && old(self).store_reliable() && old(self).approver().grants_authentication(application@) && !handle_valid(
                old(self).store(),
                application@,
                key_handle@,
            ) ==> r matches Err(AuthenticateError::BadKeyHandle),
            r matches Err(AuthenticateError::Signing(_)) || r is Ok || final(self).store() == old(self).store(),
            !old(self).approver().grants_authentication(application@) ==> final(self).store()
                == old(self).store(),
            old(self).approver().reliable() && old(self).store_reliable() && old(self).approver().grants_authentication(application@) && handle_valid(
                old(self).store(),
                application@,
                key_handle@,
            ) && next_counter(old(self).store().counters, application@) <= u32::MAX ==> final(self).store() == counted(old(self).store(), application@) && (r is Ok || r matches Err(
                AuthenticateError::Signing(_),
            )),
            r matches Err(AuthenticateError::Io(e)) ==> e == old(self).approver().channel_error()
                || e == old(self).store_error() || e == IoError::CounterExhausted,
            r matches Err(AuthenticateError::Io(e)) ==> (!old(self).approver().grants_authentication(
                application@,
            ) ==> e == old(self).approver().channel_error()),
            final(self).store() == old(self).store() || final(self).store() == counted(
                old(self).store(),
                application@,
            ),
    {
        match self.approval.approve_authentication(application) {
            Ok(true) => {},
            Ok(false) => return Err(AuthenticateError::ApprovalRequired),
            Err(e) => return Err(AuthenticateError::Io(e)),
        }
        let application_key = match self.storage.retrieve_application_key(application, key_handle) {
            Ok(Some(k)) => k,
            Ok(None) => return Err(AuthenticateError::BadKeyHandle),
            Err(e) => return Err(AuthenticateError::Io(e)),
        };
        let counter = match self.storage.get_then_increment_counter(application) {
            Ok(c) => c,
            Err(e) => return Err(AuthenticateError::Io(e)),
        };
        let message = authentication_payload(application, counter, challenge);
        let signature = match self.operations.sign(&application_key.key, message.as_slice()) {
            Ok(s) => s,
            Err(e) => return Err(AuthenticateError::Signing(e)),
        };
        Ok(Authentication { counter, signature })
    }

    /// The protocol version token.
    pub fn get_version_string() -> (r: String)
        ensures
            r@ == version_string(),
    {
        let r = String::from_str("U2F_V2");
        proof {
            reveal_strlit("U2F_V2");
        }
        r
    }

    /// Whether the store holds a key for exactly this application and handle.
    pub fn is_valid_key_handle(&self, key_handle: &KeyHandle, application: &ApplicationParameter) -> (r:
        Result<bool, IoError>)
        ensures
            r is Ok ==> r->Ok_0 == handle_valid(self.store(), application@, key_handle@),
            r is Ok <==> self.store_reliable(),
            r is Err ==> r->Err_0 == self.store_error(),
    {
        match self.storage.retrieve_application_key(application, key_handle) {
            Ok(Some(_)) => Ok(true),
            Ok(None) => Ok(false),
            Err(e) => Err(e),
        }
    }
}

} // verus!
