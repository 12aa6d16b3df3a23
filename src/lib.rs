//! A software U2F authenticator core: the registration and authentication
//! ceremonies, gated by user approval, backed by a cryptographic backend and a
//! secret store, with a per-application replay counter.

mod types;
mod payload;
mod services;
mod engine;
mod memory;
mod crypto;
mod approval;
mod laws;

pub use types::{
    ApplicationParameter, ChallengeParameter, KeyHandle, Counter, Key, ApplicationKey,
    AttestationCertificate, RawSignature, SignError, IoError, RegisterError, AuthenticateError,
    Registration, Authentication,
};
pub use payload::{
    registration_payload, authentication_payload, registration_message, authentication_message,
    counter_bytes, REGISTRATION_RESERVED_BYTE, USER_PRESENT,
};
pub use services::{
    StoreModel, ApprovalService, CryptoOperations, SecretStore, next_counter, handle_valid,
    with_key, counted,
};
pub use engine::{SoftU2F, version_string, built};
pub use memory::{InMemoryStorage, key_map, counter_map};
pub use crypto::{SecureCryptoOperations, ecdsa_sha256_signature, uncompressed_point};
pub use approval::FakeApprovalService;
pub use laws::{
    registered, counted_times, lemma_registered_handle_stays_valid, lemma_unregistered_handle_invalid,
    lemma_counter_sequence, lemma_attestation_reused,
};
