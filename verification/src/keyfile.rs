//! Generation of the initial seed hierarchy: a random root, its revocation
//! and device-seeds branches, and the first key of each branch, every one
//! locked under a single passphrase into portable encoded text.

use vstd::prelude::*;

use crate::error::CoreError;
use crate::seed::derive_of;
use crate::seed::recovers;
use crate::seed::Seed;

verus! {

/// The initial key file handed to the caller: five locked seeds in the
/// canonical portable text form, and the generation time in whole seconds
/// since the Unix epoch.
pub struct KeyFile {
    pub root_seed: String,
    pub revocation_seed: String,
    pub device_seeds_seed: String,
    pub revocation_key_0: String,
    pub device_seed_0: String,
    pub timestamp: u64,
}

/// Relies on std::time::SystemTime::now: the current wall-clock time. The
/// value depends on the host clock, so nothing is stated of it; a clock
/// before the Unix epoch reads as zero.
#[verifier::external_body]
fn now_unix_seconds() -> u64 {
    match std::time::SystemTime::now().duration_since(std::time::SystemTime::UNIX_EPOCH) {
        Ok(d) => d.as_secs(),
        Err(_) => 0,
    }
}

/// The five locked fields of a key file all stem from one root: each unlocks,
/// under the passphrase, to the root or to the right derivation-chain child.
pub open spec fn key_file_consistent(kf: KeyFile, passphrase: Seq<u8>, root: Seq<u8>) -> bool {
    &&& recovers(kf.root_seed@, passphrase, root)
    &&& recovers(kf.revocation_seed@, passphrase, derive_of(root, 0))
    &&& recovers(kf.device_seeds_seed@, passphrase, derive_of(root, 1))
    &&& recovers(kf.revocation_key_0@, passphrase, derive_of(derive_of(root, 0), 0))
    &&& recovers(kf.device_seed_0@, passphrase, derive_of(derive_of(root, 1), 0))
}

/// A key file is consistent with some single root seed.
pub open spec fn key_file_ok(kf: KeyFile, passphrase: Seq<u8>) -> bool {
    exists|root: Seq<u8>| #[trigger] key_file_consistent(kf, passphrase, root)
}

/// Generate the initial seed hierarchy under one passphrase: a random root,
/// the revocation branch (index 0) and the device-seeds branch (index 1),
/// and the first child (index 0) of each branch, each locked and encoded.
pub fn generate_initial_seeds(passphrase: &Vec<u8>) -> (r: Result<KeyFile, CoreError>)
    ensures
        r matches Ok(kf) ==> key_file_ok(kf, passphrase@),
        r matches Err(e) ==> e == CoreError::RngFailure,
{
    let root = Seed::generate_root()?;
    let revocation = root.derive(0);
    let device_seeds = root.derive(1);
    let revocation_key_0 = revocation.derive(0);
    let device_seed_0 = device_seeds.derive(0);

    let root_seed = root.lock(passphrase)?;
    let revocation_seed = revocation.lock(passphrase)?;
    let device_seeds_seed = device_seeds.lock(passphrase)?;
    let revocation_key_0 = revocation_key_0.lock(passphrase)?;
    let device_seed_0 = device_seed_0.lock(passphrase)?;

    let kf = KeyFile {
        root_seed,
        revocation_seed,
        device_seeds_seed,
        revocation_key_0,
        device_seed_0,
        timestamp: now_unix_seconds(),
    };
    proof {
        assert(key_file_consistent(kf, passphrase@, root.secrets()));
        assert(key_file_ok(kf, passphrase@));
    }
    Ok(kf)
}

/// The seeds recovered from a locked root: the root itself and the four
/// derivation-chain members the initial key file is built from.
pub struct RecoveredSeeds {
    pub root: Seed,
    pub revocation: Seed,
    pub device_seeds: Seed,
    pub revocation_key_0: Seed,
    pub device_seed_0: Seed,
}

impl RecoveredSeeds {
    /// Every recovered seed is well-formed and sits at its place in the
    /// derivation chain below the root.
    pub open spec fn wf(&self) -> bool {
        &&& self.root.wf()
        &&& self.revocation.wf()
        &&& self.device_seeds.wf()
        &&& self.revocation_key_0.wf()
        &&& self.device_seed_0.wf()
        &&& self.revocation.secrets() == derive_of(self.root.secrets(), 0)
        &&& self.device_seeds.secrets() == derive_of(self.root.secrets(), 1)
        &&& self.revocation_key_0.secrets() == derive_of(derive_of(self.root.secrets(), 0), 0)
        &&& self.device_seed_0.secrets() == derive_of(derive_of(self.root.secrets(), 1), 0)
    }
}

/// Law: unlocking a locked root and re-deriving the hierarchy reproduces it
/// byte-exactly. Whenever the text is a canonical locking of some root under
/// the passphrase, the recovered root holds exactly that material, and the
/// four re-derived seeds are the derivation-chain children of exactly that
/// material — so they match the first-generated seeds byte for byte.
pub fn recover_seed_hierarchy(root_encoded: &str, passphrase: &Vec<u8>) -> (r: Result<
    RecoveredSeeds,
    CoreError,
>)
    ensures
        r matches Ok(rs) ==> rs.wf(),
        forall|secret: Seq<u8>| #[trigger]
            recovers(root_encoded@, passphrase@, secret) ==> (r matches Ok(rs)
                && rs.root.secrets() == secret),
        r matches Err(e) ==> e == CoreError::WrongPassphraseOrCorruptData,
{
    let root = Seed::unlock(root_encoded, passphrase)?;
    let revocation = root.derive(0);
    let device_seeds = root.derive(1);
    let revocation_key_0 = revocation.derive(0);
    let device_seed_0 = device_seeds.derive(0);
    Ok(RecoveredSeeds { root, revocation, device_seeds, revocation_key_0, device_seed_0 })
}

/// Law: locking a seed and unlocking the result under one passphrase
/// reproduces the seed byte-exactly, public key included.
pub fn lock_unlock_round_trip(seed: &Seed, passphrase: &Vec<u8>) -> (r: Result<Seed, CoreError>)
    requires
        seed.wf(),
    ensures
        r matches Ok(s2) ==> s2.secrets() == seed.secrets() && s2.pub_key_view()
            == seed.pub_key_view(),
        r matches Err(e) ==> e == CoreError::RngFailure,
{
    let encoded = seed.lock(passphrase)?;
    match Seed::unlock(encoded.as_str(), passphrase) {
        Ok(s2) => Ok(s2),
        Err(_) => {
            proof {
                assert(false);
            }
            Err(CoreError::RngFailure)
        },
    }
}

} // verus!
