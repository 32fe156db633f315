//! The keystore transfer bridge: moving a locally derived seed into the
//! keystore through an authenticated-encryption handshake, and requesting
//! further derivation entirely inside the keystore.
//!
//! The exchanges themselves (lookup, create, box-encrypt, import) are
//! request/response trips on the session's transport, driven outside this
//! crate. Everything decided along the way is decided here, under contract:
//! which transfer keys to use, what goes into the import request, and —
//! before an import counts as done — that the public key the keystore
//! returned equals the one pre-derived locally.

use vstd::prelude::*;

use crate::codec::agent_key_b64_to_raw;
use crate::codec::agent_key_layout_ok;
use crate::codec::agent_key_text;
use crate::error::CoreError;
use crate::seed::sign_pub_key_of;
use crate::seed::Seed;
use crate::seed::SeedKeypair;
use crate::call_request::ZomeCallUnsignedNapi;
use crate::session::bytes_equal;
use crate::session::copy_bytes;
use crate::session::same_session;
use crate::session::KeystoreSession;
use crate::session::SessionState;

verus! {

/// A reference to a keystore-held entry: the symbolic tag and the public
/// halves the keystore reported. The private halves never leave the
/// keystore.
#[derive(Debug)]
pub struct KeyReference {
    pub tag: String,
    pub ed25519_pub_key: Vec<u8>,
    pub x25519_pub_key: Vec<u8>,
}

/// What a tag lookup in the keystore found: a seed entry with its public
/// halves, an entry of some other shape, or nothing.
pub enum EntryLookup {
    SeedEntry { ed25519_pub_key: Vec<u8>, x25519_pub_key: Vec<u8> },
    OtherEntry,
    Missing,
}

/// Decide what a tag lookup means for transfer-key provisioning: use the
/// seed entry that is there, create one when the tag is missing, refuse an
/// entry of the wrong shape. This is the lookup-then-create convention; the
/// two steps are not atomic against concurrent writers of the same tag.
pub fn resolve_key_entry(tag: &String, lookup: EntryLookup) -> (r: Result<
    Option<KeyReference>,
    CoreError,
>)
    ensures
        r matches Ok(opt) ==> match lookup {
            EntryLookup::SeedEntry { ed25519_pub_key, x25519_pub_key } => opt matches Some(kr)
                && kr.tag@ == tag@ && kr.ed25519_pub_key@ == ed25519_pub_key@
                && kr.x25519_pub_key@ == x25519_pub_key@,
            EntryLookup::Missing => opt is None,
            EntryLookup::OtherEntry => false,
        },
        r matches Err(e) ==> e == CoreError::ProtocolError && lookup is OtherEntry,
{
    match lookup {
        EntryLookup::SeedEntry { ed25519_pub_key, x25519_pub_key } => Ok(
            Some(KeyReference { tag: tag.clone(), ed25519_pub_key, x25519_pub_key }),
        ),
        EntryLookup::OtherEntry => Err(CoreError::ProtocolError),
        EntryLookup::Missing => Ok(None),
    }
}

/// An import in flight: the destination tag, the exportable flag, the public
/// key pre-derived locally that the keystore must hand back, and — as ghost
/// bookkeeping — the seed material all of it stands for.
pub struct PendingImport {
    pub tag: String,
    pub expected_pub_key: Vec<u8>,
    pub exportable: bool,
    pub seed_material: Ghost<Seq<u8>>,
}

impl PendingImport {
    /// The expected key is the one derived from the pending seed material.
    pub open spec fn wf(&self) -> bool {
        self.expected_pub_key@ == sign_pub_key_of(self.seed_material@)
    }
}

/// Begin an import: pin down, before anything is sent, the public key that
/// the keystore must return for the import to count.
pub fn start_import(seed: &Seed, tag: String, exportable: bool) -> (r: PendingImport)
    requires
        seed.wf(),
    ensures
        r.wf(),
        r.seed_material@ == seed.secrets(),
        r.expected_pub_key@ == sign_pub_key_of(seed.secrets()),
        r.tag@ == tag@,
        r.exportable == exportable,
{
    PendingImport {
        tag,
        expected_pub_key: seed.public_key(),
        exportable,
        seed_material: Ghost(seed.secrets()),
    }
}

/// The import operation's request, exactly as it goes to the keystore: the
/// two transfer-key references, the authenticated-box envelope the
/// keystore's box operation produced, the destination tag and the exportable
/// flag. Seed material travels only inside that envelope.
pub struct ImportRequest {
    pub sender_pub_key: Vec<u8>,
    pub recipient_pub_key: Vec<u8>,
    pub nonce: Vec<u8>,
    pub cipher: Vec<u8>,
    pub tag: String,
    pub exportable: bool,
}

/// Assemble the import request; every field passes through unchanged, so
/// what is sent is exactly the envelope that was produced and the tag that
/// was asked for.
pub fn build_import_request(
    pending: &PendingImport,
    enc_key: &KeyReference,
    dec_key: &KeyReference,
    nonce: Vec<u8>,
    cipher: Vec<u8>,
) -> (r: ImportRequest)
    ensures
        r.sender_pub_key@ == enc_key.x25519_pub_key@,
        r.recipient_pub_key@ == dec_key.x25519_pub_key@,
        r.nonce@ == nonce@,
        r.cipher@ == cipher@,
        r.tag@ == pending.tag@,
        r.exportable == pending.exportable,
{
    ImportRequest {
        sender_pub_key: copy_bytes(&enc_key.x25519_pub_key),
        recipient_pub_key: copy_bytes(&dec_key.x25519_pub_key),
        nonce,
        cipher,
        tag: pending.tag.clone(),
        exportable: pending.exportable,
    }
}

/// Confirm an import: it counts only if the key the keystore returned equals
/// the locally pre-derived one. On a match the session records the key as
/// signable (everything known before stays known); on a mismatch the import
/// is treated as not having happened — the session is untouched, so no
/// signing against that key will be admitted.
pub fn confirm_import(
    session: &mut KeystoreSession,
    pending: &PendingImport,
    returned_pub_key: &Vec<u8>,
) -> (r: Result<Vec<u8>, CoreError>)
    requires
        pending.wf(),
    ensures
        r matches Ok(key) ==> key@ == pending.expected_pub_key@ && returned_pub_key@
            == pending.expected_pub_key@ && key@ == sign_pub_key_of(pending.seed_material@)
            && final(session).knows(key@) && final(session).state_view() == old(
            session,
        ).state_view() && (forall|k: Seq<u8>|
            old(session).knows(k) ==> final(session).knows(k)),
        r matches Err(e) ==> e == CoreError::ImportVerificationFailed && returned_pub_key@
            != pending.expected_pub_key@ && same_session(*final(session), *old(session)),
{
    if bytes_equal(returned_pub_key, &pending.expected_pub_key) {
        let key = copy_bytes(&pending.expected_pub_key);
        session.note_imported_key(copy_bytes(&key));
        Ok(key)
    } else {
        Err(CoreError::ImportVerificationFailed)
    }
}

/// Law: importing the same seed under two different tags yields two
/// separately addressable keystore entries with identical public keys — the
/// expected key depends on the seed material alone, never on the tag.
pub proof fn lemma_same_seed_two_tags(p1: &PendingImport, p2: &PendingImport)
    requires
        p1.wf(),
        p2.wf(),
        p1.seed_material@ == p2.seed_material@,
        p1.tag@ != p2.tag@,
    ensures
        p1.expected_pub_key@ == p2.expected_pub_key@,
        p1.tag@ != p2.tag@,
{
}

/// Law: a confirmed import makes signing admissible. On a ready session, once
/// the keystore's returned key has been confirmed against an import's
/// expectation, a well-formed request whose provenance carries that key is
/// admitted by the gateway, and the digest handed out for signing is the
/// request's canonical digest; the only possible failure is the
/// import-verification mismatch itself.
pub fn import_then_sign(
    session: &mut KeystoreSession,
    pending: &PendingImport,
    returned_pub_key: &Vec<u8>,
    request: &ZomeCallUnsignedNapi,
) -> (r: Result<Vec<u8>, CoreError>)
    requires
        pending.wf(),
        request.wf(),
        old(session).state_view() == SessionState::Ready,
        request.provenance@.subrange(3, 35) == pending.expected_pub_key@,
    ensures
        r matches Ok(digest) ==> digest@ == request.digest_view() && final(session).knows(
            pending.expected_pub_key@,
        ),
        r matches Err(e) ==> e == CoreError::ImportVerificationFailed && returned_pub_key@
            != pending.expected_pub_key@,
{
    let _imported = confirm_import(session, pending, returned_pub_key)?;
    match session.prepare_sign_request(request) {
        Ok(digest) => Ok(digest),
        Err(_) => {
            proof {
                assert(false);
            }
            Err(CoreError::ImportVerificationFailed)
        },
    }
}

/// Check a derived keypair against the expected host key from a provisioning
/// file: for a well-formed agent-key string, the check passes exactly when
/// the string's key bytes are the derived public key.
pub fn check_host_key(derived: &SeedKeypair, expected_host_key_b64: &String) -> (r: Result<
    (),
    CoreError,
>)
    ensures
        forall|full: Seq<u8>|
            agent_key_layout_ok(full) && expected_host_key_b64@ == #[trigger] agent_key_text(full)
                ==> (r is Ok <==> full.subrange(3, 35) == derived.public@),
        r matches Err(e) ==> e == CoreError::ImportVerificationFailed,
{
    match agent_key_b64_to_raw(expected_host_key_b64) {
        Some(raw) => {
            if bytes_equal(&raw, &derived.public) {
                Ok(())
            } else {
                Err(CoreError::ImportVerificationFailed)
            }
        },
        None => Err(CoreError::ImportVerificationFailed),
    }
}

/// The tag under which a host seed derived from a provisioning file is
/// imported: the host key's own text, marked as imported.
pub fn host_import_tag(expected_host_key_b64: &String) -> (r: String)
    ensures
        r@ == "imported#"@ + expected_host_key_b64@,
{
    let prefix: String = String::from_str("imported#");
    prefix.concat(expected_host_key_b64.as_str())
}

/// The keystore-internal derivation request: derive from the seed stored
/// under `src_tag` along `path`, storing the result under `dst_tag`. The
/// derived material never enters this process at all.
pub struct DeriveRequest {
    pub src_tag: String,
    pub dst_tag: String,
    pub path: Vec<u32>,
}

/// Assemble a keystore-internal derivation request; the tags and the path go
/// through unchanged.
pub fn build_derive_request(src_tag: &String, dst_tag: &String, path: Vec<u32>) -> (r:
    DeriveRequest)
    ensures
        r.src_tag@ == src_tag@,
        r.dst_tag@ == dst_tag@,
        r.path@ == path@,
{
    DeriveRequest { src_tag: src_tag.clone(), dst_tag: dst_tag.clone(), path }
}

/// Accept the keystore's answer to a derivation request as a key reference
/// under the destination tag; the reported public halves go through
/// unchanged.
pub fn accept_derived_key(dst_tag: &String, ed25519_pub_key: Vec<u8>, x25519_pub_key: Vec<u8>) -> (r:
    KeyReference)
    ensures
        r.tag@ == dst_tag@,
        r.ed25519_pub_key@ == ed25519_pub_key@,
        r.x25519_pub_key@ == x25519_pub_key@,
{
    KeyReference { tag: dst_tag.clone(), ed25519_pub_key, x25519_pub_key }
}

} // verus!
