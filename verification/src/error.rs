//! The error surface of the core: every failure a caller can observe.

use vstd::prelude::*;

verus! {

/// Every way an operation of this core can fail.
///
/// - `RngFailure`: secure random generation was unavailable; fatal for the
///   generation attempt, never retried here.
/// - `WrongPassphraseOrCorruptData`: a locked seed bundle did not decrypt;
///   by design this does not distinguish a wrong passphrase from corrupted
///   bytes.
/// - `ImportVerificationFailed`: the keystore returned a public key that does
///   not match the locally pre-derived one; the import must be treated as not
///   having happened.
/// - `UnknownKey`: a signature was requested for a provenance key that this
///   session never imported.
/// - `ConnectionError`: the session is not in the `Ready` state.
/// - `TransportError`: the channel to the keystore failed mid-operation.
/// - `ProtocolError`: the keystore answered with an unexpected response shape.
#[derive(Clone, Copy, Debug, PartialEq, Eq, Structural)]
pub enum CoreError {
    RngFailure,
    WrongPassphraseOrCorruptData,
    ImportVerificationFailed,
    UnknownKey,
    ConnectionError,
    TransportError,
    ProtocolError,
}

impl CoreError {
    /// A short human-readable description of the error.
    pub fn message(&self) -> (r: &'static str)
        ensures
            r@.len() > 0,
    {
        proof {
            reveal_strlit("secure random generation failed");
            reveal_strlit("wrong passphrase or corrupt data");
            reveal_strlit("imported public key did not match the derived one");
            reveal_strlit("provenance key was never imported");
            reveal_strlit("keystore session is not ready");
            reveal_strlit("keystore transport failed");
            reveal_strlit("unexpected keystore response");
        }
        match self {
            CoreError::RngFailure => "secure random generation failed",
            CoreError::WrongPassphraseOrCorruptData => "wrong passphrase or corrupt data",
            CoreError::ImportVerificationFailed => {
                "imported public key did not match the derived one"
            },
            CoreError::UnknownKey => "provenance key was never imported",
            CoreError::ConnectionError => "keystore session is not ready",
            CoreError::TransportError => "keystore transport failed",
            CoreError::ProtocolError => "unexpected keystore response",
        }
    }
}

} // verus!
