//! The seed hierarchy: random root seeds, deterministic child derivation by
//! index, and passphrase-based locking into portable encoded bundles.

use vstd::prelude::*;

use std::sync::Arc;
use std::sync::Mutex;

use crate::codec::b64_url_of;
use crate::codec::decode_locked;
use crate::codec::encode_locked;
use crate::error::CoreError;

verus! {

#[verifier::external_type_specification]
#[verifier::external_body]
pub struct ExUnlockedSeedBundle(hc_seed_bundle::UnlockedSeedBundle);

/// The child seed that hc_seed_bundle's key derivation produces from a parent
/// seed and an index: a pure function of exactly those two, the same on any
/// host, forever.
pub uninterp spec fn derive_of(parent: Seq<u8>, index: u32) -> Seq<u8>;

/// The ed25519 signature public key deterministically generated from a seed
/// by hc_seed_bundle (libsodium's seed keypair construction).
pub uninterp spec fn sign_pub_key_of(seed: Seq<u8>) -> Seq<u8>;

/// What unlocking locked-bundle bytes under a passphrase yields: `Some` of
/// the original 32 seed bytes when the authenticated decryption succeeds for
/// that passphrase, `None` when it fails. A pure function of the bundle bytes
/// and the passphrase.
pub uninterp spec fn unlock_of(blob: Seq<u8>, passphrase: Seq<u8>) -> Option<Seq<u8>>;

/// A seed: 32 bytes of private material together with the public half of the
/// signature keypair it determines. The private material must be dropped as
/// soon as a caller no longer needs it (it exists here so the import
/// handshake can encrypt it; nothing else should hold it).
pub struct Seed {
    bundle: hc_seed_bundle::UnlockedSeedBundle,
    secret: Vec<u8>,
    pub_key: Vec<u8>,
}

impl Seed {
    /// Model view: the 32 bytes of private seed material.
    pub closed spec fn secrets(&self) -> Seq<u8> {
        self.secret@
    }

    /// Model view: the ed25519 public key bytes.
    pub closed spec fn pub_key_view(&self) -> Seq<u8> {
        self.pub_key@
    }

    /// Well-formed: 32 bytes of material, and the public key is the one that
    /// key generation derives from exactly that material.
    pub open spec fn wf(&self) -> bool {
        &&& self.secrets().len() == 32
        &&& self.pub_key_view() == sign_pub_key_of(self.secrets())
    }
}

/// Relies on hc_seed_bundle::UnlockedSeedBundle::new_random: a fresh 32-byte
/// seed from secure randomness, carrying the signature public key generated
/// from that seed; `None` when randomness or secure memory is unavailable.
#[verifier::external_body]
fn new_random_raw() -> (r: Option<Seed>)
    ensures
        r matches Some(s) ==> s.wf() && s.pub_key_view() == sign_pub_key_of(s.secrets()),
{
    let rt = tokio::runtime::Builder::new_current_thread().build().expect("runtime");
    let bundle = match rt.block_on(hc_seed_bundle::UnlockedSeedBundle::new_random()) {
        Ok(b) => b,
        Err(_) => return None,
    };
    let seed_arc = bundle.get_seed();
    let mut guard = seed_arc.lock().unwrap();
    let secret = guard.lock().to_vec();
    drop(guard);
    let pub_key = bundle.get_sign_pub_key().to_vec();
    Some(Seed { bundle, secret, pub_key })
}

/// Relies on hc_seed_bundle::UnlockedSeedBundle::derive: deterministic
/// derivation of the child seed for an index, a KDF over the parent's seed
/// bytes and the index alone (it fails only when secure memory cannot be
/// allocated, which aborts).
#[verifier::external_body]
fn derive_raw(parent: &Seed, index: u32) -> (r: Seed)
    ensures
        r.wf(),
        r.secrets() == derive_of(parent.secrets(), index),
{
    let rt = tokio::runtime::Builder::new_current_thread().build().expect("runtime");
    let bundle = rt.block_on(parent.bundle.derive(index)).expect("derive");
    let seed_arc = bundle.get_seed();
    let mut guard = seed_arc.lock().unwrap();
    let secret = guard.lock().to_vec();
    drop(guard);
    let pub_key = bundle.get_sign_pub_key().to_vec();
    Seed { bundle, secret, pub_key }
}

/// Relies on hc_seed_bundle's pwhash seed cipher (SeedCipherBuilder::
/// add_pwhash_cipher and lock): the bundle bytes it produces decrypt, under
/// the same passphrase, to exactly the seed that was locked. The salt and
/// stream header are fresh randomness, so that round-trip fact is all that
/// holds of every outcome.
#[verifier::external_body]
fn lock_raw(seed: &Seed, passphrase: &Vec<u8>) -> (r: Option<Vec<u8>>)
    ensures
        r matches Some(blob) ==> unlock_of(blob@, passphrase@) == Some(seed.secrets()),
{
    let rt = tokio::runtime::Builder::new_current_thread().build().expect("runtime");
    let pass = Arc::new(Mutex::new(sodoken::LockedArray::from(passphrase.clone())));
    let cipher = seed.bundle.lock().add_pwhash_cipher(pass);
    rt.block_on(cipher.lock()).ok().map(|b| b.to_vec())
}

/// Relies on hc_seed_bundle::UnlockedSeedBundle::from_locked and
/// LockedSeedCipherPwHash::unlock: decoding the bundle bytes and decrypting
/// the first pwhash cipher under a passphrase is deterministic in exactly
/// those two inputs, and fails (rather than yield wrong bytes) when the
/// authentication check fails or no pwhash cipher is present.
#[verifier::external_body]
fn unlock_raw(blob: &Vec<u8>, passphrase: &Vec<u8>) -> (r: Option<Seed>)
    ensures
        r matches Some(s) ==> s.wf() && unlock_of(blob@, passphrase@) == Some(s.secrets()),
        r is None ==> unlock_of(blob@, passphrase@) is None,
{
    let rt = tokio::runtime::Builder::new_current_thread().build().expect("runtime");
    let mut ciphers = rt.block_on(hc_seed_bundle::UnlockedSeedBundle::from_locked(blob)).ok()?;
    if ciphers.is_empty() {
        return None;
    }
    let pass = Arc::new(Mutex::new(sodoken::LockedArray::from(passphrase.clone())));
    let bundle = match ciphers.remove(0) {
        hc_seed_bundle::LockedSeedCipher::PwHash(c) => rt.block_on(c.unlock(pass)).ok()?,
        _ => return None,
    };
    let seed_arc = bundle.get_seed();
    let secret = seed_arc.lock().unwrap().lock().to_vec();
    let pub_key = bundle.get_sign_pub_key().to_vec();
    Some(Seed { bundle, secret, pub_key })
}

/// A locked seed encoded into the canonical portable text form recovers a
/// given seed under a passphrase: the text is the canonical encoding of
/// bundle bytes that unlock to exactly that seed material.
pub open spec fn recovers(encoded: Seq<char>, passphrase: Seq<u8>, secret: Seq<u8>) -> bool {
    exists|blob: Seq<u8>|
        encoded == #[trigger] b64_url_of(blob) && unlock_of(blob, passphrase) == Some(secret)
}

impl Seed {
    /// Generate a fresh root seed from cryptographically secure randomness.
    /// Fails only when randomness is unavailable; that failure is fatal for
    /// the generation attempt and is not retried here.
    pub fn generate_root() -> (r: Result<Seed, CoreError>)
        ensures
            r matches Ok(s) ==> s.wf(),
            r matches Err(e) ==> e == CoreError::RngFailure,
    {
        match new_random_raw() {
            Some(s) => Ok(s),
            None => Err(CoreError::RngFailure),
        }
    }

    /// Derive the child seed for an index: deterministic and total, the same
    /// (seed, index) pair always yields the same child.
    pub fn derive(&self, index: u32) -> (r: Seed)
        requires
            self.wf(),
        ensures
            r.wf(),
            r.secrets() == derive_of(self.secrets(), index),
            r.pub_key_view() == sign_pub_key_of(derive_of(self.secrets(), index)),
    {
        derive_raw(self, index)
    }

    /// The public verification key of this seed.
    pub fn public_key(&self) -> (r: Vec<u8>)
        ensures
            r@ == self.pub_key_view(),
    {
        let mut out: Vec<u8> = Vec::new();
        let mut i: usize = 0;
        while i < self.pub_key.len()
            invariant
                i <= self.pub_key@.len(),
                out@ == self.pub_key@.subrange(0, i as int),
            decreases self.pub_key@.len() - i,
        {
            out.push(self.pub_key[i]);
            proof {
                assert(out@ =~= self.pub_key@.subrange(0, i + 1 as int));
            }
            i = i + 1;
        }
        proof {
            assert(out@ =~= self.pub_key@);
        }
        out
    }

    /// The private seed material. Callers must drop it as soon as it is no
    /// longer needed, normally right after an import handshake.
    pub fn private_material(&self) -> (r: Vec<u8>)
        ensures
            r@ == self.secrets(),
    {
        let mut out: Vec<u8> = Vec::new();
        let mut i: usize = 0;
        while i < self.secret.len()
            invariant
                i <= self.secret@.len(),
                out@ == self.secret@.subrange(0, i as int),
            decreases self.secret@.len() - i,
        {
            out.push(self.secret[i]);
            proof {
                assert(out@ =~= self.secret@.subrange(0, i + 1 as int));
            }
            i = i + 1;
        }
        proof {
            assert(out@ =~= self.secret@);
        }
        out
    }

    /// Lock this seed under a passphrase into the canonical portable text
    /// form. The result always unlocks, under the same passphrase, to exactly
    /// this seed's material.
    pub fn lock(&self, passphrase: &Vec<u8>) -> (r: Result<String, CoreError>)
        requires
            self.wf(),
        ensures
            r matches Ok(s) ==> recovers(s@, passphrase@, self.secrets()),
            r matches Err(e) ==> e == CoreError::RngFailure,
    {
        match lock_raw(self, passphrase) {
            Some(blob) => {
                let s = encode_locked(&blob);
                proof {
                    assert(s@ == b64_url_of(blob@) && unlock_of(blob@, passphrase@) == Some(
                        self.secrets(),
                    ));
                }
                Ok(s)
            },
            None => Err(CoreError::RngFailure),
        }
    }

    /// Unlock a portable locked seed. Whenever the text is a canonical
    /// locking of some seed under this passphrase, exactly that seed comes
    /// back; a wrong passphrase and corrupted data fail identically, with no
    /// partial output.
    pub fn unlock(encoded: &str, passphrase: &Vec<u8>) -> (r: Result<Seed, CoreError>)
        ensures
            forall|secret: Seq<u8>| #[trigger]
                recovers(encoded@, passphrase@, secret) ==> (r matches Ok(s2) && s2.secrets()
                    == secret),
            r matches Ok(s2) ==> s2.wf(),
            r matches Err(e) ==> e == CoreError::WrongPassphraseOrCorruptData,
    {
        let blob = match decode_locked(encoded) {
            Ok(b) => b,
            Err(e) => {
                proof {
                    assert forall|secret: Seq<u8>| #[trigger]
                        recovers(encoded@, passphrase@, secret) implies false by {
                        let blob0 = choose|blob0: Seq<u8>|
                            encoded@ == #[trigger] b64_url_of(blob0) && unlock_of(
                                blob0,
                                passphrase@,
                            ) == Some(secret);
                        assert(encoded@ == b64_url_of(blob0));
                    }
                }
                return Err(e);
            },
        };
        match unlock_raw(&blob, passphrase) {
            Some(s) => {
                proof {
                    assert forall|secret: Seq<u8>| #[trigger]
                        recovers(encoded@, passphrase@, secret) implies s.secrets() == secret by {
                        let blob0 = choose|blob0: Seq<u8>|
                            encoded@ == #[trigger] b64_url_of(blob0) && unlock_of(
                                blob0,
                                passphrase@,
                            ) == Some(secret);
                        assert(blob@ == blob0);
                    }
                }
                Ok(s)
            },
            None => {
                proof {
                    assert forall|secret: Seq<u8>| #[trigger]
                        recovers(encoded@, passphrase@, secret) implies false by {
                        let blob0 = choose|blob0: Seq<u8>|
                            encoded@ == #[trigger] b64_url_of(blob0) && unlock_of(
                                blob0,
                                passphrase@,
                            ) == Some(secret);
                        assert(blob@ == blob0);
                    }
                }
                Err(CoreError::WrongPassphraseOrCorruptData)
            },
        }
    }
}

/// A derived signature keypair as plain bytes: the public half and the
/// 32-byte seed that acts as the private half. The secret must be dropped as
/// soon as it has served its purpose.
pub struct SeedKeypair {
    pub public: Vec<u8>,
    pub secret: Vec<u8>,
}

impl SeedKeypair {
    /// The public half is the one derived from the secret half.
    pub open spec fn wf(&self) -> bool {
        &&& self.secret@.len() == 32
        &&& self.public@ == sign_pub_key_of(self.secret@)
    }
}

/// Unlock a portable locked device bundle with the given passphrase. The
/// canonical encoding is tried first, the legacy padded one on the read path
/// only; a wrong passphrase and corrupt data fail identically.
pub fn unlock_device_bundle(device_bundle: &String, passphrase: &Vec<u8>) -> (r: Result<
    Seed,
    CoreError,
>)
    ensures
        forall|secret: Seq<u8>| #[trigger]
            recovers(device_bundle@, passphrase@, secret) ==> (r matches Ok(s) && s.secrets()
                == secret),
        r matches Ok(s) ==> s.wf(),
        r matches Err(e) ==> e == CoreError::WrongPassphraseOrCorruptData,
{
    Seed::unlock(device_bundle.as_str(), passphrase)
}

/// Unlock a device bundle and derive the sub-seed at the given index,
/// returning the derived keypair as plain bytes.
pub fn derive_seed_from_device_bundle(
    device_bundle: &String,
    passphrase: &Vec<u8>,
    index: u32,
) -> (r: Result<SeedKeypair, CoreError>)
    ensures
        forall|secret: Seq<u8>| #[trigger]
            recovers(device_bundle@, passphrase@, secret) ==> (r matches Ok(kp) && kp.secret@
                == derive_of(secret, index) && kp.public@ == sign_pub_key_of(
                derive_of(secret, index),
            )),
        r matches Ok(kp) ==> kp.wf(),
        r matches Err(e) ==> e == CoreError::WrongPassphraseOrCorruptData,
{
    let seed = unlock_device_bundle(device_bundle, passphrase)?;
    let child = seed.derive(index);
    Ok(SeedKeypair { public: child.public_key(), secret: child.private_material() })
}

/// Law: derivation is stable across repeated calls. Two derivations from one
/// seed with one index return byte-identical children — the same private
/// material and the same public key, both equal to the one derivation the
/// seed and index determine.
pub fn derive_twice(seed: &Seed, index: u32) -> (r: (Seed, Seed))
    requires
        seed.wf(),
    ensures
        r.0.secrets() == r.1.secrets(),
        r.0.pub_key_view() == r.1.pub_key_view(),
        r.0.secrets() == derive_of(seed.secrets(), index),
{
    (seed.derive(index), seed.derive(index))
}

} // verus!
