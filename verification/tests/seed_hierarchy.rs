//! Seed generation, derivation, locking and recovery, end to end with the
//! real cipher underneath.

use launcher_core::error::CoreError;
use launcher_core::keyfile::generate_initial_seeds;
use launcher_core::keyfile::lock_unlock_round_trip;
use launcher_core::keyfile::recover_seed_hierarchy;
use launcher_core::seed::derive_seed_from_device_bundle;
use launcher_core::seed::unlock_device_bundle;
use launcher_core::seed::Seed;

fn fast_limits<T>(f: impl FnOnce() -> T) -> T {
    hc_seed_bundle::PwHashLimits::Minimum.with_exec(f)
}

fn expect_err<T>(r: Result<T, CoreError>) -> CoreError {
    match r {
        Err(e) => e,
        Ok(_) => panic!("expected an error"),
    }
}

#[test]
fn derivation_is_deterministic_and_index_separated() {
    let root = Seed::generate_root().unwrap();
    let child_a = root.derive(7);
    let child_b = root.derive(7);
    assert_eq!(child_a.private_material(), child_b.private_material());
    assert_eq!(child_a.public_key(), child_b.public_key());

    let child_0 = root.derive(0);
    let child_1 = root.derive(1);
    assert_ne!(child_0.private_material(), child_1.private_material());
    assert_ne!(child_0.public_key(), child_1.public_key());
    assert_ne!(child_0.private_material(), root.private_material());
}

#[test]
fn lock_then_unlock_is_byte_exact() {
    let root = Seed::generate_root().unwrap();
    let pass: Vec<u8> = b"pw".to_vec();
    let encoded = fast_limits(|| root.lock(&pass)).unwrap();
    // the portable form is text, not the raw seed bytes
    assert_ne!(encoded.as_bytes().to_vec(), root.private_material());
    let back = Seed::unlock(&encoded, &pass).unwrap();
    assert_eq!(back.private_material(), root.private_material());
    assert_eq!(back.public_key(), root.public_key());

    let again = fast_limits(|| lock_unlock_round_trip(&root, &pass)).unwrap();
    assert_eq!(again.private_material(), root.private_material());
}

#[test]
fn wrong_passphrase_fails_with_no_output() {
    let root = Seed::generate_root().unwrap();
    let encoded = fast_limits(|| root.lock(&b"pw1".to_vec())).unwrap();
    let err = expect_err(Seed::unlock(&encoded, &b"pw2".to_vec()));
    assert_eq!(err, CoreError::WrongPassphraseOrCorruptData);
}

#[test]
fn corrupt_data_fails_like_wrong_passphrase() {
    let err = expect_err(Seed::unlock("not-a-bundle!!", &b"pw".to_vec()));
    assert_eq!(err, CoreError::WrongPassphraseOrCorruptData);
    let err2 = expect_err(Seed::unlock("QUJD", &b"pw".to_vec()));
    assert_eq!(err2, CoreError::WrongPassphraseOrCorruptData);
}

#[test]
fn legacy_padded_encoding_still_unlocks() {
    let root = Seed::generate_root().unwrap();
    let pass: Vec<u8> = b"pw".to_vec();
    let canonical = fast_limits(|| root.lock(&pass)).unwrap();
    let raw = base64::decode_config(&canonical, base64::URL_SAFE_NO_PAD).unwrap();
    let legacy = base64::encode(&raw);
    if legacy != canonical {
        let back = Seed::unlock(&legacy, &pass).unwrap();
        assert_eq!(back.private_material(), root.private_material());
    }
    let back2 = Seed::unlock(&canonical, &pass).unwrap();
    assert_eq!(back2.private_material(), root.private_material());
}

#[test]
fn device_bundle_unlock_and_derive() {
    let root = Seed::generate_root().unwrap();
    let pass: Vec<u8> = b"device-pass".to_vec();
    let bundle = fast_limits(|| root.lock(&pass)).unwrap();

    let unlocked = unlock_device_bundle(&bundle, &pass).unwrap();
    assert_eq!(unlocked.private_material(), root.private_material());

    let kp = derive_seed_from_device_bundle(&bundle, &pass, 1).unwrap();
    let expected = root.derive(1);
    assert_eq!(kp.secret, expected.private_material());
    assert_eq!(kp.public, expected.public_key());
}

#[test]
fn initial_seeds_regenerate_from_the_locked_root() {
    let pass: Vec<u8> = b"abc".to_vec();
    let kf = fast_limits(|| generate_initial_seeds(&pass)).unwrap();
    assert!(kf.timestamp > 0);

    // the five blobs are pairwise different text
    assert_ne!(kf.root_seed, kf.revocation_seed);
    assert_ne!(kf.revocation_seed, kf.device_seeds_seed);
    assert_ne!(kf.revocation_key_0, kf.device_seed_0);

    // the generated seeds, unlocked from the key file itself
    let root = Seed::unlock(&kf.root_seed, &pass).unwrap();
    let revocation = Seed::unlock(&kf.revocation_seed, &pass).unwrap();
    let device_seeds = Seed::unlock(&kf.device_seeds_seed, &pass).unwrap();
    let revocation_key_0 = Seed::unlock(&kf.revocation_key_0, &pass).unwrap();
    let device_seed_0 = Seed::unlock(&kf.device_seed_0, &pass).unwrap();

    // recover the whole hierarchy from the locked root alone
    let rs = recover_seed_hierarchy(&kf.root_seed, &pass).unwrap();
    assert_eq!(rs.root.private_material(), root.private_material());
    assert_eq!(rs.revocation.private_material(), revocation.private_material());
    assert_eq!(rs.device_seeds.private_material(), device_seeds.private_material());
    assert_eq!(rs.revocation_key_0.private_material(), revocation_key_0.private_material());
    assert_eq!(rs.device_seed_0.private_material(), device_seed_0.private_material());
    assert_eq!(rs.revocation.public_key(), revocation.public_key());
    assert_eq!(rs.device_seed_0.public_key(), device_seed_0.public_key());
}

#[test]
fn recovery_with_wrong_passphrase_fails() {
    let pass: Vec<u8> = b"abc".to_vec();
    let kf = fast_limits(|| generate_initial_seeds(&pass)).unwrap();
    let err = expect_err(recover_seed_hierarchy(&kf.root_seed, &b"abd".to_vec()));
    assert_eq!(err, CoreError::WrongPassphraseOrCorruptData);
}
