use openssl::hash::MessageDigest;
use openssl::pkey::PKey;
use openssl::sign::Verifier;
use softu2f::{
    authentication_payload, registration_payload, ApplicationParameter, AuthenticateError,
    ChallengeParameter, CryptoOperations, FakeApprovalService, InMemoryStorage, Key, KeyHandle,
    SecretStore, SecureCryptoOperations, SoftU2F,
};

fn verifies(key: &Key, data: &[u8], signature: &[u8]) -> bool {
    let pkey = PKey::from_ec_key(key.0.clone()).unwrap();
    let mut verifier = Verifier::new(MessageDigest::sha256(), &pkey).unwrap();
    verifier.update(data).unwrap();
    verifier.verify(signature).unwrap()
}

#[test]
fn registration_and_authentication_challenges_are_independent() {
    let approval = FakeApprovalService::always_approve();
    let operations = SecureCryptoOperations;
    let mut storage = InMemoryStorage::new();
    let mut softu2f = SoftU2F::new(&approval, &operations, &mut storage).unwrap();

    let application = ApplicationParameter([7; 32]);
    let registration = softu2f
        .register(&application, &ChallengeParameter([1; 32]))
        .unwrap();
    let authentication = softu2f
        .authenticate(&application, &ChallengeParameter([2; 32]), &registration.key_handle)
        .unwrap();
    assert_eq!(authentication.counter, 0);
}

#[test]
fn handle_of_another_application_does_not_resolve() {
    let approval = FakeApprovalService::always_approve();
    let operations = SecureCryptoOperations;
    let mut storage = InMemoryStorage::new();
    let mut softu2f = SoftU2F::new(&approval, &operations, &mut storage).unwrap();

    let first = ApplicationParameter([1; 32]);
    let second = ApplicationParameter([2; 32]);
    let challenge = ChallengeParameter([0; 32]);
    let registration = softu2f.register(&first, &challenge).unwrap();

    assert!(matches!(
        softu2f.is_valid_key_handle(&registration.key_handle, &second),
        Ok(false)
    ));
    assert!(matches!(
        softu2f.authenticate(&second, &challenge, &registration.key_handle),
        Err(AuthenticateError::BadKeyHandle)
    ));
    assert_eq!(
        softu2f
            .authenticate(&first, &challenge, &registration.key_handle)
            .unwrap()
            .counter,
        0
    );
}

#[test]
fn counters_run_in_order() {
    let approval = FakeApprovalService::always_approve();
    let operations = SecureCryptoOperations;
    let mut storage = InMemoryStorage::new();
    let mut softu2f = SoftU2F::new(&approval, &operations, &mut storage).unwrap();

    let application = ApplicationParameter([3; 32]);
    let challenge = ChallengeParameter([4; 32]);
    let registration = softu2f.register(&application, &challenge).unwrap();
    for expected in 0..5u32 {
        let authentication = softu2f
            .authenticate(&application, &challenge, &registration.key_handle)
            .unwrap();
        assert_eq!(authentication.counter, expected);
    }
}

#[test]
fn counters_are_per_application() {
    let approval = FakeApprovalService::always_approve();
    let operations = SecureCryptoOperations;
    let mut storage = InMemoryStorage::new();
    let mut softu2f = SoftU2F::new(&approval, &operations, &mut storage).unwrap();

    let a = ApplicationParameter([5; 32]);
    let b = ApplicationParameter([6; 32]);
    let challenge = ChallengeParameter([0; 32]);
    let ra = softu2f.register(&a, &challenge).unwrap();
    let rb = softu2f.register(&b, &challenge).unwrap();
    assert_eq!(softu2f.authenticate(&a, &challenge, &ra.key_handle).unwrap().counter, 0);
    assert_eq!(softu2f.authenticate(&a, &challenge, &ra.key_handle).unwrap().counter, 1);
    assert_eq!(softu2f.authenticate(&b, &challenge, &rb.key_handle).unwrap().counter, 0);
}

#[test]
fn second_registration_keeps_first_credential() {
    let approval = FakeApprovalService::always_approve();
    let operations = SecureCryptoOperations;
    let mut storage = InMemoryStorage::new();
    let mut softu2f = SoftU2F::new(&approval, &operations, &mut storage).unwrap();

    let application = ApplicationParameter([8; 32]);
    let challenge = ChallengeParameter([0; 32]);
    let first = softu2f.register(&application, &challenge).unwrap();
    let second = softu2f.register(&application, &challenge).unwrap();
    assert_ne!(first.key_handle.0, second.key_handle.0);
    assert!(matches!(softu2f.is_valid_key_handle(&first.key_handle, &application), Ok(true)));
    assert!(matches!(softu2f.is_valid_key_handle(&second.key_handle, &application), Ok(true)));
}

#[test]
fn denied_registration_stores_nothing() {
    let operations = SecureCryptoOperations;
    let mut storage = InMemoryStorage::new();
    let application = ApplicationParameter([0; 32]);
    let challenge = ChallengeParameter([0; 32]);
    {
        let deny = FakeApprovalService {
            should_approve_authentication: true,
            should_approve_registration: false,
        };
        let mut softu2f = SoftU2F::new(&deny, &operations, &mut storage).unwrap();
        assert!(softu2f.register(&application, &challenge).is_err());
        assert!(matches!(
            softu2f.is_valid_key_handle(&KeyHandle([0; 32]), &application),
            Ok(false)
        ));
    }
}

#[test]
fn denied_authentication_leaves_counter() {
    let operations = SecureCryptoOperations;
    let mut storage = InMemoryStorage::new();
    let application = ApplicationParameter([9; 32]);
    let challenge = ChallengeParameter([0; 32]);
    let approve = FakeApprovalService::always_approve();
    let handle = {
        let mut softu2f = SoftU2F::new(&approve, &operations, &mut storage).unwrap();
        let registration = softu2f.register(&application, &challenge).unwrap();
        let a = softu2f.authenticate(&application, &challenge, &registration.key_handle);
        assert_eq!(a.unwrap().counter, 0);
        registration.key_handle
    };
    {
        let deny = FakeApprovalService {
            should_approve_authentication: false,
            should_approve_registration: true,
        };
        let mut softu2f = SoftU2F::new(&deny, &operations, &mut storage).unwrap();
        assert!(matches!(
            softu2f.authenticate(&application, &challenge, &handle),
            Err(AuthenticateError::ApprovalRequired)
        ));
    }
    let mut softu2f = SoftU2F::new(&approve, &operations, &mut storage).unwrap();
    let a = softu2f.authenticate(&application, &challenge, &handle);
    assert_eq!(a.unwrap().counter, 1);
}

#[test]
fn attestation_certificate_is_reused() {
    let approval = FakeApprovalService::always_approve();
    let operations = SecureCryptoOperations;
    let mut storage = InMemoryStorage::new();
    let first = {
        let softu2f = SoftU2F::new(&approval, &operations, &mut storage).unwrap();
        operations.public_key(&softu2f.attestation_certificate().key).unwrap()
    };
    let second = {
        let softu2f = SoftU2F::new(&approval, &operations, &mut storage).unwrap();
        operations.public_key(&softu2f.attestation_certificate().key).unwrap()
    };
    assert_eq!(first, second);

    let mut other_storage = InMemoryStorage::new();
    let softu2f = SoftU2F::new(&approval, &operations, &mut other_storage).unwrap();
    let other = operations.public_key(&softu2f.attestation_certificate().key).unwrap();
    assert_ne!(first, other);
}

#[test]
fn all_zero_scenario() {
    let approval = FakeApprovalService::always_approve();
    let operations = SecureCryptoOperations;
    let mut storage = InMemoryStorage::new();
    let mut softu2f = SoftU2F::new(&approval, &operations, &mut storage).unwrap();

    let app = ApplicationParameter([0; 32]);
    let challenge = ChallengeParameter([0; 32]);
    let registration = softu2f.register(&app, &challenge).unwrap();
    assert_eq!(registration.key_handle.0.len(), 32);
    assert!(matches!(softu2f.is_valid_key_handle(&registration.key_handle, &app), Ok(true)));
    if registration.key_handle.0 != [0; 32] {
        assert!(matches!(softu2f.is_valid_key_handle(&KeyHandle([0; 32]), &app), Ok(false)));
    }
    let first = softu2f.authenticate(&app, &challenge, &registration.key_handle).unwrap();
    assert_eq!(first.counter, 0);
    let second = softu2f.authenticate(&app, &challenge, &registration.key_handle).unwrap();
    assert_eq!(second.counter, 1);
}

#[test]
fn version_string_is_u2f_v2() {
    assert_eq!(
        SoftU2F::<FakeApprovalService, SecureCryptoOperations, InMemoryStorage>::get_version_string(),
        "U2F_V2"
    );
}

#[test]
fn authentication_payload_layout() {
    let payload = authentication_payload(
        &ApplicationParameter([0xaa; 32]),
        0x0102_0304,
        &ChallengeParameter([0xbb; 32]),
    );
    let mut expected = vec![0xaa; 32];
    expected.push(0x01);
    expected.extend_from_slice(&[0x01, 0x02, 0x03, 0x04]);
    expected.extend_from_slice(&[0xbb; 32]);
    assert_eq!(payload, expected);
}

#[test]
fn registration_payload_layout() {
    let payload = registration_payload(
        &ApplicationParameter([1; 32]),
        &ChallengeParameter([2; 32]),
        &KeyHandle([3; 32]),
        &[4, 5, 6],
    );
    let mut expected = vec![0x00];
    expected.extend_from_slice(&[1; 32]);
    expected.extend_from_slice(&[2; 32]);
    expected.extend_from_slice(&[3; 32]);
    expected.extend_from_slice(&[4, 5, 6]);
    assert_eq!(payload, expected);
    assert_eq!(payload.len(), 1 + 96 + 3);
}

#[test]
fn backend_signature_verifies() {
    let operations = SecureCryptoOperations;
    let application = ApplicationParameter([1; 32]);
    let key = operations.generate_application_key(&application).unwrap();
    assert_eq!(key.application.0, application.0);
    let data = b"payload bytes";
    let signature = operations.sign(&key.key, data).unwrap();
    assert!(!signature.as_bytes().is_empty());
    assert!(verifies(&key.key, data, signature.as_bytes()));
    assert!(!verifies(&key.key, b"other bytes", signature.as_bytes()));
}

#[test]
fn backend_public_key_is_uncompressed_point() {
    let operations = SecureCryptoOperations;
    let certificate = operations.generate_attestation_certificate().unwrap();
    let point = operations.public_key(&certificate.key).unwrap();
    assert_eq!(point.len(), 65);
    assert_eq!(point[0], 0x04);
}

#[test]
fn backend_key_handles_differ() {
    let operations = SecureCryptoOperations;
    let application = ApplicationParameter([1; 32]);
    let a = operations.generate_application_key(&application).unwrap();
    let b = operations.generate_application_key(&application).unwrap();
    assert_ne!(a.handle.0, b.handle.0);
    assert_ne!(a.handle.0, [0; 32]);
}

#[test]
fn ceremony_signatures_verify() {
    let approval = FakeApprovalService::always_approve();
    let operations = SecureCryptoOperations;
    let mut storage = InMemoryStorage::new();
    let mut softu2f = SoftU2F::new(&approval, &operations, &mut storage).unwrap();

    let application = ApplicationParameter([0x11; 32]);
    let challenge = ChallengeParameter([0x22; 32]);
    let registration = softu2f.register(&application, &challenge).unwrap();
    assert_eq!(registration.user_public_key.len(), 65);
    assert!(registration.attestation_certificate.is_empty());
    let message = registration_payload(
        &application,
        &challenge,
        &registration.key_handle,
        &registration.user_public_key,
    );
    assert!(verifies(
        &softu2f.attestation_certificate().key,
        &message,
        registration.signature.as_bytes()
    ));
}

#[test]
fn authentication_signature_verifies_with_registered_key() {
    let approval = FakeApprovalService::always_approve();
    let operations = SecureCryptoOperations;
    let mut storage = InMemoryStorage::new();
    let application = ApplicationParameter([0x33; 32]);
    let challenge = ChallengeParameter([0x44; 32]);
    let (handle, authentication) = {
        let mut softu2f = SoftU2F::new(&approval, &operations, &mut storage).unwrap();
        let registration = softu2f.register(&application, &challenge).unwrap();
        let authentication = softu2f
            .authenticate(&application, &challenge, &registration.key_handle)
            .unwrap();
        (registration.key_handle, authentication)
    };
    let stored = storage
        .retrieve_application_key(&application, &handle)
        .unwrap()
        .unwrap();
    assert_eq!(stored.handle.0, handle.0);
    let message = authentication_payload(&application, authentication.counter, &challenge);
    assert!(verifies(&stored.key, &message, authentication.signature.as_bytes()));
    assert!(storage
        .retrieve_application_key(&ApplicationParameter([0x34; 32]), &handle)
        .unwrap()
        .is_none());
}

#[test]
fn store_counter_starts_at_zero_and_steps_by_one() {
    let mut storage = InMemoryStorage::new();
    let application = ApplicationParameter([0x55; 32]);
    assert_eq!(storage.get_then_increment_counter(&application).unwrap(), 0);
    assert_eq!(storage.get_then_increment_counter(&application).unwrap(), 1);
    assert_eq!(storage.get_then_increment_counter(&application).unwrap(), 2);
    assert!(storage.get_attestation_certificate().unwrap().is_none());
}

#[test]
fn rebuilding_on_returned_store_reuses_certificate() {
    let approval = FakeApprovalService::always_approve();
    let operations = SecureCryptoOperations;
    let mut storage = InMemoryStorage::new();
    let first = SoftU2F::new(&approval, &operations, &mut storage).unwrap();
    let first_point = operations
        .public_key(&first.attestation_certificate().key)
        .unwrap();
    let store = first.into_storage();
    let second = SoftU2F::new(&approval, &operations, store).unwrap();
    let second_point = operations
        .public_key(&second.attestation_certificate().key)
        .unwrap();
    assert_eq!(first_point, second_point);
}

#[test]
fn authentication_signature_covers_counter() {
    let approval = FakeApprovalService::always_approve();
    let operations = SecureCryptoOperations;
    let mut storage = InMemoryStorage::new();
    let application = ApplicationParameter([0x66; 32]);
    let challenge = ChallengeParameter([0x77; 32]);
    let mut softu2f = SoftU2F::new(&approval, &operations, &mut storage).unwrap();
    let registration = softu2f.register(&application, &challenge).unwrap();
    softu2f
        .authenticate(&application, &challenge, &registration.key_handle)
        .unwrap();
    let second = softu2f
        .authenticate(&application, &challenge, &registration.key_handle)
        .unwrap();
    let store = softu2f.into_storage();
    let stored = store
        .retrieve_application_key(&application, &registration.key_handle)
        .unwrap()
        .unwrap();
    let right = authentication_payload(&application, 1, &challenge);
    let wrong = authentication_payload(&application, 0, &challenge);
    assert_eq!(second.counter, 1);
    assert!(verifies(&stored.key, &right, second.signature.as_bytes()));
    assert!(!verifies(&stored.key, &wrong, second.signature.as_bytes()));
}
