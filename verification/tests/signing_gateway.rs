//! The session state machine, the import bridge and the signing gateway,
//! driven as the keystore driver would drive them; ed25519 signing and
//! verification stand in for the keystore's signing operation.

use ed25519_dalek::Signer;
use ed25519_dalek::Verifier;

use launcher_core::call_request::ZomeCallUnsignedNapi;
use launcher_core::error::CoreError;
use launcher_core::import::build_derive_request;
use launcher_core::import::build_import_request;
use launcher_core::import::confirm_import;
use launcher_core::import::import_then_sign;
use launcher_core::import::resolve_key_entry;
use launcher_core::import::start_import;
use launcher_core::import::EntryLookup;
use launcher_core::import::KeyReference;
use launcher_core::seed::Seed;
use launcher_core::session::KeystoreSession;
use launcher_core::session::SessionState;
use launcher_core::session::SignOutcome;

fn ready_session() -> KeystoreSession {
    let mut session = KeystoreSession::new();
    session.begin_connect();
    session.complete_connect(true);
    session
}

fn sample_request(provenance: Vec<u8>) -> ZomeCallUnsignedNapi {
    ZomeCallUnsignedNapi {
        cell_id: vec![vec![1u8; 39], vec![2u8; 39]],
        zome_name: String::from("coordinator"),
        fn_name: String::from("create_entry"),
        payload: vec![9, 9, 9],
        cap_secret: Some(vec![7u8; 64]),
        provenance,
        nonce: vec![3u8; 32],
        expires_at: 1_700_000_000_000_000,
    }
}

/// A 39-byte agent key around a 32-byte ed25519 key, as requests carry it.
fn provenance_of(raw32: &[u8]) -> Vec<u8> {
    let mut v = vec![0x84u8, 0x20, 0x24];
    v.extend_from_slice(raw32);
    v.extend_from_slice(&[0, 0, 0, 0]);
    v
}

fn import_seed_into(session: &mut KeystoreSession, seed: &Seed, tag: &str) -> Vec<u8> {
    let pending = start_import(seed, String::from(tag), false);

    // transfer keys, as the keystore would report them after lookup/create
    let enc_lookup = EntryLookup::SeedEntry {
        ed25519_pub_key: vec![11u8; 32],
        x25519_pub_key: vec![12u8; 32],
    };
    let enc_key = resolve_key_entry(&String::from("import-encryption-key"), enc_lookup)
        .unwrap()
        .unwrap();
    let dec_missing = resolve_key_entry(&String::from("import-decryption-key"), EntryLookup::Missing)
        .unwrap();
    assert!(dec_missing.is_none());
    let dec_key = KeyReference {
        tag: String::from("import-decryption-key"),
        ed25519_pub_key: vec![21u8; 32],
        x25519_pub_key: vec![22u8; 32],
    };

    // the envelope comes from the keystore's box operation; the request must
    // carry it through unchanged
    let nonce = vec![5u8; 24];
    let cipher = vec![6u8; 64];
    let request = build_import_request(&pending, &enc_key, &dec_key, nonce.clone(), cipher.clone());
    assert_eq!(request.sender_pub_key, enc_key.x25519_pub_key);
    assert_eq!(request.recipient_pub_key, dec_key.x25519_pub_key);
    assert_eq!(request.nonce, nonce);
    assert_eq!(request.cipher, cipher);
    assert_eq!(request.tag, tag);
    assert!(!request.exportable);

    // the keystore derives the public key from the imported seed material
    let returned = seed.public_key();
    confirm_import(session, &pending, &returned).unwrap()
}

#[test]
fn session_state_machine_follows_the_spec() {
    let mut session = KeystoreSession::new();
    assert_eq!(session.state(), SessionState::Disconnected);
    session.begin_connect();
    assert_eq!(session.state(), SessionState::Connecting);
    session.complete_connect(true);
    assert_eq!(session.state(), SessionState::Ready);
    session.record_transport_failure();
    assert_eq!(session.state(), SessionState::Failed);

    let mut failing = KeystoreSession::new();
    failing.begin_connect();
    failing.complete_connect(false);
    assert_eq!(failing.state(), SessionState::Failed);
}

#[test]
fn not_ready_sessions_refuse_to_sign() {
    let session = KeystoreSession::new();
    let seed = Seed::generate_root().unwrap();
    let request = sample_request(provenance_of(&seed.public_key()));
    let err = session.prepare_sign_request(&request).unwrap_err();
    assert_eq!(err, CoreError::ConnectionError);
}

#[test]
fn imported_seed_signs_and_the_signature_verifies() {
    let mut session = ready_session();
    let seed = Seed::generate_root().unwrap();
    let p = import_seed_into(&mut session, &seed, "my-key");

    assert_eq!(p, seed.public_key());
    assert!(session.holds_key(&p));

    let request = sample_request(provenance_of(&p));
    let digest = session.prepare_sign_request(&request).unwrap();

    // the keystore's signing operation, played by ed25519 over the seed
    let secret: [u8; 32] = seed.private_material().try_into().unwrap();
    let signing_key = ed25519_dalek::SigningKey::from_bytes(&secret);
    // the seed's public key is the standard ed25519 one
    assert_eq!(signing_key.verifying_key().to_bytes().to_vec(), p);
    let signature = signing_key.sign(&digest);

    let signed = session
        .finish_sign_request(&request, SignOutcome::Signature(signature.to_bytes().to_vec()))
        .unwrap();
    assert_eq!(signed.cell_id, request.cell_id);
    assert_eq!(signed.zome_name, request.zome_name);
    assert_eq!(signed.fn_name, request.fn_name);
    assert_eq!(signed.payload, request.payload);
    assert_eq!(signed.cap_secret, request.cap_secret);
    assert_eq!(signed.provenance, request.provenance);
    assert_eq!(signed.nonce, request.nonce);
    assert_eq!(signed.expires_at, request.expires_at);

    // standard verification against P succeeds
    let verifying = ed25519_dalek::VerifyingKey::from_bytes(&p.clone().try_into().unwrap()).unwrap();
    let sig = ed25519_dalek::Signature::from_bytes(&signed.signature.clone().try_into().unwrap());
    assert!(verifying.verify(&digest, &sig).is_ok());
}

#[test]
fn same_seed_under_two_tags_gives_same_key_twice() {
    let mut session = ready_session();
    let seed = Seed::generate_root().unwrap();
    let p1 = import_seed_into(&mut session, &seed, "tag-one");
    let p2 = import_seed_into(&mut session, &seed, "tag-two");
    assert_eq!(p1, p2);
    assert!(session.holds_key(&p1));
}

#[test]
fn unknown_provenance_fails_and_mutates_nothing() {
    let mut session = ready_session();
    let seed = Seed::generate_root().unwrap();
    let imported = import_seed_into(&mut session, &seed, "known");

    let stranger = Seed::generate_root().unwrap();
    let request = sample_request(provenance_of(&stranger.public_key()));
    let err = session.prepare_sign_request(&request).unwrap_err();
    assert_eq!(err, CoreError::UnknownKey);

    // nothing changed: still ready, known key still known, stranger still not
    assert_eq!(session.state(), SessionState::Ready);
    assert!(session.holds_key(&imported));
    assert!(!session.holds_key(&stranger.public_key()));
}

#[test]
fn mismatched_import_is_rejected_and_not_recorded() {
    let mut session = ready_session();
    let seed = Seed::generate_root().unwrap();
    let pending = start_import(&seed, String::from("bad"), false);
    let wrong = vec![0u8; 32];
    let err = confirm_import(&mut session, &pending, &wrong).unwrap_err();
    assert_eq!(err, CoreError::ImportVerificationFailed);
    assert!(!session.holds_key(&seed.public_key()));
    assert_eq!(session.state(), SessionState::Ready);
}

#[test]
fn canonicalization_is_deterministic_and_field_sensitive() {
    let seed = Seed::generate_root().unwrap();
    let p = provenance_of(&seed.public_key());
    let a = sample_request(p.clone());
    let b = sample_request(p.clone());
    let da = a.data_to_sign();
    let db = b.data_to_sign();
    assert_eq!(da, db);
    // the digest is not the payload handed back unchanged
    assert_ne!(da, a.payload);

    let mut c = sample_request(p);
    c.fn_name = String::from("create_entrx");
    assert_ne!(c.data_to_sign(), da);

    // identical digests give identical signatures under one key
    let secret: [u8; 32] = seed.private_material().try_into().unwrap();
    let signing_key = ed25519_dalek::SigningKey::from_bytes(&secret);
    assert_eq!(signing_key.sign(&da).to_bytes(), signing_key.sign(&db).to_bytes());
}

#[test]
fn transport_failure_fails_the_session_for_good() {
    let mut session = ready_session();
    let seed = Seed::generate_root().unwrap();
    let p = import_seed_into(&mut session, &seed, "k");
    let request = sample_request(provenance_of(&p));

    let err = session
        .finish_sign_request(&request, SignOutcome::Failure)
        .unwrap_err();
    assert_eq!(err, CoreError::TransportError);
    assert_eq!(session.state(), SessionState::Failed);

    // every later call fails immediately
    let err2 = session.prepare_sign_request(&request).unwrap_err();
    assert_eq!(err2, CoreError::ConnectionError);
}

#[test]
fn malformed_signature_is_a_protocol_error() {
    let mut session = ready_session();
    let seed = Seed::generate_root().unwrap();
    let p = import_seed_into(&mut session, &seed, "k");
    let request = sample_request(provenance_of(&p));
    let err = session
        .finish_sign_request(&request, SignOutcome::Signature(vec![1, 2, 3]))
        .unwrap_err();
    assert_eq!(err, CoreError::ProtocolError);
    assert_eq!(session.state(), SessionState::Ready);
}

#[test]
fn repeated_derivation_returns_identical_children() {
    let root = Seed::generate_root().unwrap();
    let (a, b) = launcher_core::seed::derive_twice(&root, 42);
    assert_eq!(a.private_material(), b.private_material());
    assert_eq!(a.public_key(), b.public_key());
}

#[test]
fn confirmed_import_admits_signing_in_one_step() {
    let mut session = ready_session();
    let seed = Seed::generate_root().unwrap();
    let pending = start_import(&seed, String::from("one-step"), false);
    let returned = seed.public_key();
    let request = sample_request(provenance_of(&returned));
    let digest = import_then_sign(&mut session, &pending, &returned, &request).unwrap();
    assert_eq!(digest, request.data_to_sign());

    // a mismatched returned key is the one possible failure
    let mut session2 = ready_session();
    let pending2 = start_import(&seed, String::from("one-step-bad"), false);
    let err = import_then_sign(&mut session2, &pending2, &vec![0u8; 32], &request).unwrap_err();
    assert_eq!(err, CoreError::ImportVerificationFailed);
}

#[test]
fn wrong_shape_entry_is_a_protocol_error() {
    let err = resolve_key_entry(&String::from("import-encryption-key"), EntryLookup::OtherEntry)
        .unwrap_err();
    assert_eq!(err, CoreError::ProtocolError);
}

#[test]
fn derive_requests_pass_tags_and_path_through() {
    let req = build_derive_request(&String::from("root"), &String::from("device-0"), vec![0, 1, 4]);
    assert_eq!(req.src_tag, "root");
    assert_eq!(req.dst_tag, "device-0");
    assert_eq!(req.path, vec![0, 1, 4]);
}
