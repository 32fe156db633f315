//! Client-side core for provisioning cryptographic identities and signing
//! remote-call requests against an external keystore service.
//!
//! The crate is organised around five pieces:
//! - seed hierarchy generation and deterministic child derivation ([`seed`]);
//! - passphrase-based locking of seeds into portable encoded blobs ([`seed`],
//!   [`codec`], [`keyfile`]);
//! - the authenticated-encryption import protocol that moves a locally
//!   derived seed into the keystore ([`import`]);
//! - the call-signing gateway that canonicalizes a call request and tracks
//!   which provenance keys the keystore session holds ([`call_request`],
//!   [`session`]);
//! - small helpers around version labels, path layout and menu-item
//!   identifiers ([`versions`], [`paths`], [`tray`]).

pub mod call_request;
pub mod codec;
pub mod error;
pub mod import;
pub mod keyfile;
pub mod paths;
pub mod seed;
pub mod session;
pub mod tray;
pub mod versions;

pub use error::CoreError;
