//! Portable byte-to-text encoding for locked seed bundles and agent keys.
//!
//! One canonical encoding is fixed (url-safe alphabet, no padding); the
//! legacy padded standard-alphabet form is accepted on read paths only.

use vstd::prelude::*;

use crate::error::CoreError;

verus! {

/// The text that url-safe-no-padding base64 encoding produces for the given
/// bytes. A pure function of the bytes; its table lives in the `base64`
/// crate and is not spelled out here.
pub uninterp spec fn b64_url_of(bytes: Seq<u8>) -> Seq<char>;

/// The text that padded standard-alphabet base64 encoding produces for the
/// given bytes; the legacy encoding accepted on read paths.
pub uninterp spec fn b64_std_of(bytes: Seq<u8>) -> Seq<char>;

/// Relies on base64::encode_config with URL_SAFE_NO_PAD: the canonical
/// encoding, a pure function of the input bytes.
#[verifier::external_body]
fn b64_url_encode(bytes: &Vec<u8>) -> (r: String)
    ensures
        r@ == b64_url_of(bytes@),
{
    base64::encode_config(bytes, base64::URL_SAFE_NO_PAD)
}

/// What a decoder that inverts the canonical encoding must return: whenever
/// the text is the canonical encoding of some bytes, exactly those bytes.
pub open spec fn url_decodes(s: Seq<char>, r: Option<Vec<u8>>) -> bool {
    forall|b: Seq<u8>| s == #[trigger] b64_url_of(b) ==> (r matches Some(v) && v@ == b)
}

/// What a decoder that inverts the legacy encoding must return: whenever the
/// text is the legacy encoding of some bytes, exactly those bytes.
pub open spec fn std_decodes(s: Seq<char>, r: Option<Vec<u8>>) -> bool {
    forall|b: Seq<u8>| s == #[trigger] b64_std_of(b) ==> (r matches Some(v) && v@ == b)
}

/// Relies on base64::decode_config with URL_SAFE_NO_PAD: decoding inverts
/// encoding, so a string that is the canonical encoding of some bytes
/// decodes to exactly those bytes.
#[verifier::external_body]
fn b64_url_decode(s: &str) -> (r: Option<Vec<u8>>)
    ensures
        url_decodes(s@, r),
{
    base64::decode_config(s, base64::URL_SAFE_NO_PAD).ok()
}

/// Relies on base64::decode: decoding inverts the legacy padded
/// standard-alphabet encoding.
#[verifier::external_body]
fn b64_std_decode(s: &str) -> (r: Option<Vec<u8>>)
    ensures
        std_decodes(s@, r),
        r is Some <== exists|b: Seq<u8>| s@ == #[trigger] b64_std_of(b),
{
    base64::decode(s).ok()
}

/// Encode locked-bundle bytes into the one canonical portable text form.
pub fn encode_locked(bytes: &Vec<u8>) -> (r: String)
    ensures
        r@ == b64_url_of(bytes@),
{
    b64_url_encode(bytes)
}

/// Decode a portable locked-bundle string: the canonical encoding first,
/// then the legacy one as a read-compatibility path. A string that decodes
/// under neither is reported exactly as a locked bundle that does not
/// decrypt would be.
pub fn decode_locked(s: &str) -> (r: Result<Vec<u8>, CoreError>)
    ensures
        forall|b: Seq<u8>| s@ == #[trigger] b64_url_of(b) ==> (r matches Ok(v) && v@ == b),
        r matches Err(e) ==> e == CoreError::WrongPassphraseOrCorruptData,
{
    match b64_url_decode(s) {
        Some(v) => Ok(v),
        None => match b64_std_decode(s) {
            Some(v) => Ok(v),
            None => Err(CoreError::WrongPassphraseOrCorruptData),
        },
    }
}

/// The canonical text form of a full 39-byte agent key: a `u` sigil followed
/// by the canonical base64 of the bytes.
pub open spec fn agent_key_text(full: Seq<u8>) -> Seq<char> {
    seq!['u'].add(b64_url_of(full))
}

/// The 39-byte layout of an agent key: a fixed three-byte prefix, then the
/// 32-byte ed25519 public key, then four location bytes.
pub open spec fn agent_key_layout_ok(full: Seq<u8>) -> bool {
    &&& full.len() == 39
    &&& full[0] == 0x84u8
    &&& full[1] == 0x20u8
    &&& full[2] == 0x24u8
}

/// Extract the 32-byte ed25519 public key from an agent-key string.
///
/// The four trailing location bytes are not re-checked here: the key bytes
/// are what import verification and signing compare.
pub fn agent_key_b64_to_raw(s: &String) -> (r: Option<Vec<u8>>)
    ensures
        forall|full: Seq<u8>|
            agent_key_layout_ok(full) && s@ == #[trigger] agent_key_text(full) ==> (
            r matches Some(v) && v@ == full.subrange(3, 35)),
        r matches Some(v) ==> v@.len() == 32,
{
    let n = s.as_str().unicode_len();
    if n < 1 {
        proof {
            assert forall|full: Seq<u8>|
                agent_key_layout_ok(full) && s@ == #[trigger] agent_key_text(full) implies false by {
                assert(agent_key_text(full).len() >= 1);
            }
        }
        return None;
    }
    if s.as_str().get_char(0) != 'u' {
        proof {
            assert forall|full: Seq<u8>|
                agent_key_layout_ok(full) && s@ == #[trigger] agent_key_text(full) implies false by {
                assert(agent_key_text(full)[0] == 'u');
            }
        }
        return None;
    }
    let rest = s.as_str().substring_char(1, n);
    proof {
        assert forall|full: Seq<u8>|
            agent_key_layout_ok(full) && s@ == #[trigger] agent_key_text(full) implies rest@
            == b64_url_of(full) by {
            assert(rest@ =~= b64_url_of(full));
        }
    }
    let full = match b64_url_decode(rest) {
        Some(v) => v,
        None => {
            return None;
        },
    };
    if full.len() != 39 {
        return None;
    }
    if full[0] != 0x84u8 || full[1] != 0x20u8 || full[2] != 0x24u8 {
        return None;
    }
    let mut out: Vec<u8> = Vec::new();
    let mut i: usize = 3;
    while i < 35
        invariant
            3 <= i <= 35,
            full@.len() == 39,
            out@ == full@.subrange(3, i as int),
        decreases 35 - i,
    {
        out.push(full[i]);
        proof {
            assert(out@ =~= full@.subrange(3, i + 1 as int));
        }
        i = i + 1;
    }
    Some(out)
}

} // verus!
