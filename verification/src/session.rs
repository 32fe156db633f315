//! The keystore session: one persistent authenticated connection to the
//! external secrets service, and the call-signing gateway that runs over it.
//!
//! The session itself is a state machine; the I/O that drives it (connecting,
//! sending requests, receiving responses) lives outside this crate. Every
//! decision — whether a call may proceed, what bytes are signed, what comes
//! back to the caller — is made here, under contract.

use vstd::prelude::*;

use crate::call_request::opt_view;
use crate::call_request::views_of;
use crate::call_request::ZomeCallNapi;
use crate::call_request::ZomeCallUnsignedNapi;
use crate::error::CoreError;

verus! {

/// The lifecycle of the one shared keystore connection. `Disconnected`
/// becomes `Connecting` when a connection is started; the handshake outcome
/// decides between `Ready` and `Failed`; `Ready` persists for the process
/// lifetime; a transport failure moves to `Failed`, and there is no
/// automatic reconnect.
#[derive(Clone, Copy, Debug, PartialEq, Eq, Structural)]
pub enum SessionState {
    Disconnected,
    Connecting,
    Ready,
    Failed,
}

/// What the keystore answered to a signing request, as the driver hands it
/// back: the signature bytes, or a channel failure.
pub enum SignOutcome {
    Signature(Vec<u8>),
    Failure,
}

/// The keystore session: its connection state and the 32-byte ed25519
/// provenance keys whose seeds were imported (and verified) over it.
pub struct KeystoreSession {
    state: SessionState,
    known_keys: Vec<Vec<u8>>,
}

/// Copy a byte vector.
pub fn copy_bytes(v: &Vec<u8>) -> (r: Vec<u8>)
    ensures
        r@ == v@,
{
    let mut out: Vec<u8> = Vec::new();
    let mut i: usize = 0;
    while i < v.len()
        invariant
            i <= v@.len(),
            out@ == v@.subrange(0, i as int),
        decreases v@.len() - i,
    {
        out.push(v[i]);
        proof {
            assert(out@ =~= v@.subrange(0, i + 1 as int));
        }
        i = i + 1;
    }
    proof {
        assert(out@ =~= v@);
    }
    out
}

/// Two byte vectors hold the same bytes.
pub fn bytes_equal(a: &Vec<u8>, b: &Vec<u8>) -> (r: bool)
    ensures
        r == (a@ == b@),
{
    if a.len() != b.len() {
        return false;
    }
    let mut i: usize = 0;
    while i < a.len()
        invariant
            i <= a@.len(),
            a@.len() == b@.len(),
            forall|j: int| 0 <= j < i ==> a@[j] == b@[j],
        decreases a@.len() - i,
    {
        if a[i] != b[i] {
            return false;
        }
        i = i + 1;
    }
    proof {
        assert(a@ =~= b@);
    }
    true
}

impl KeystoreSession {
    /// Model view: the connection state.
    pub closed spec fn state_view(&self) -> SessionState {
        self.state
    }

    /// Model view: the imported provenance keys, newest last.
    pub closed spec fn known_view(&self) -> Seq<Seq<u8>> {
        Seq::new(self.known_keys@.len(), |i: int| self.known_keys@[i]@)
    }

    /// This session has imported (and verified) a seed for the given 32-byte
    /// public key.
    pub open spec fn knows(&self, key: Seq<u8>) -> bool {
        self.known_view().contains(key)
    }

    /// A fresh session: not yet connected, no keys imported.
    pub fn new() -> (r: KeystoreSession)
        ensures
            r.state_view() == SessionState::Disconnected,
            r.known_view() == Seq::<Seq<u8>>::empty(),
    {
        let r = KeystoreSession { state: SessionState::Disconnected, known_keys: Vec::new() };
        proof {
            assert(r.known_view() =~= Seq::<Seq<u8>>::empty());
        }
        r
    }

    /// The current connection state.
    pub fn state(&self) -> (r: SessionState)
        ensures
            r == self.state_view(),
    {
        self.state
    }

    /// A connection attempt has started.
    pub fn begin_connect(&mut self)
        requires
            old(self).state_view() == SessionState::Disconnected,
        ensures
            final(self).state_view() == SessionState::Connecting,
            final(self).known_view() == old(self).known_view(),
    {
        self.state = SessionState::Connecting;
    }

    /// The connection handshake finished: authenticated and ready when it
    /// succeeded, failed for good when it did not.
    pub fn complete_connect(&mut self, handshake_ok: bool)
        requires
            old(self).state_view() == SessionState::Connecting,
        ensures
            handshake_ok ==> final(self).state_view() == SessionState::Ready,
            !handshake_ok ==> final(self).state_view() == SessionState::Failed,
            final(self).known_view() == old(self).known_view(),
    {
        if handshake_ok {
            self.state = SessionState::Ready;
        } else {
            self.state = SessionState::Failed;
        }
    }

    /// The transport under this session failed: every later call on it fails
    /// immediately; there is no automatic reconnect.
    pub fn record_transport_failure(&mut self)
        ensures
            final(self).state_view() == SessionState::Failed,
            final(self).known_view() == old(self).known_view(),
    {
        self.state = SessionState::Failed;
    }

    /// The session can serve keystore operations.
    pub fn is_ready(&self) -> (r: bool)
        ensures
            r == (self.state_view() == SessionState::Ready),
    {
        match self.state {
            SessionState::Ready => true,
            _ => false,
        }
    }

    /// Record a 32-byte provenance key whose seed this session now holds;
    /// everything known before stays known.
    pub(crate) fn note_imported_key(&mut self, key: Vec<u8>)
        ensures
            final(self).state_view() == old(self).state_view(),
            final(self).known_view() == old(self).known_view().push(key@),
            final(self).knows(key@),
            forall|k: Seq<u8>| old(self).knows(k) ==> final(self).knows(k),
    {
        let ghost prior = self.known_view();
        self.known_keys.push(key);
        proof {
            assert(self.known_view() =~= prior.push(key@));
            assert(self.known_view()[self.known_view().len() - 1] == key@);
            assert forall|k: Seq<u8>| old(self).knows(k) implies self.knows(k) by {
                let j = choose|j: int| 0 <= j < prior.len() && prior[j] == k;
                assert(self.known_view()[j] == k);
            }
        }
    }

    /// Whether this session has imported a seed for the given 32-byte key.
    pub fn holds_key(&self, key: &Vec<u8>) -> (r: bool)
        ensures
            r == self.knows(key@),
    {
        let mut i: usize = 0;
        while i < self.known_keys.len()
            invariant
                i <= self.known_keys@.len(),
                forall|j: int| 0 <= j < i ==> self.known_keys@[j]@ != key@,
            decreases self.known_keys@.len() - i,
        {
            if bytes_equal(&self.known_keys[i], key) {
                proof {
                    assert(self.known_view()[i as int] == key@);
                }
                return true;
            }
            i = i + 1;
        }
        proof {
            assert forall|j: int| 0 <= j < self.known_view().len() implies self.known_view()[j]
                != key@ by {
                assert(self.known_view()[j] == self.known_keys@[j]@);
            }
            assert(!self.knows(key@));
        }
        false
    }

    /// The call-signing gateway's admission decision: canonicalize the
    /// request and hand back the digest the keystore must sign — but only on
    /// a ready session, and only for a provenance key this session imported.
    /// A session that is not ready fails with `ConnectionError`; a provenance
    /// never imported fails with `UnknownKey`. No state is mutated either
    /// way.
    pub fn prepare_sign_request(&self, request: &ZomeCallUnsignedNapi) -> (r: Result<
        Vec<u8>,
        CoreError,
    >)
        requires
            request.wf(),
        ensures
            r matches Ok(digest) ==> self.state_view() == SessionState::Ready && self.knows(
                request.provenance@.subrange(3, 35),
            ) && digest@ == request.digest_view(),
            r matches Err(e) ==> (e == CoreError::ConnectionError && self.state_view()
                != SessionState::Ready) || (e == CoreError::UnknownKey && self.state_view()
                == SessionState::Ready && !self.knows(request.provenance@.subrange(3, 35))),
    {
        if !self.is_ready() {
            return Err(CoreError::ConnectionError);
        }
        let mut raw: Vec<u8> = Vec::new();
        let mut i: usize = 3;
        while i < 35
            invariant
                3 <= i <= 35,
                request.provenance@.len() == 39,
                raw@ == request.provenance@.subrange(3, i as int),
            decreases 35 - i,
        {
            raw.push(request.provenance[i]);
            proof {
                assert(raw@ =~= request.provenance@.subrange(3, i + 1 as int));
            }
            i = i + 1;
        }
        if !self.holds_key(&raw) {
            return Err(CoreError::UnknownKey);
        }
        Ok(request.data_to_sign())
    }

    /// Finish a signing exchange: attach the keystore's signature to the
    /// request, unchanged field for field. A channel failure marks this
    /// session failed and returns `TransportError`; a malformed signature is
    /// a `ProtocolError` and changes nothing. No partly-signed request is
    /// ever returned.
    pub fn finish_sign_request(&mut self, request: &ZomeCallUnsignedNapi, outcome: SignOutcome) -> (r:
        Result<ZomeCallNapi, CoreError>)
        ensures
            r matches Ok(signed) ==> (outcome matches SignOutcome::Signature(sig)
                && signed.signature@ == sig@ && sig@.len() == 64)
                && signed_matches(request, &signed)
                && same_session(*final(self), *old(self)),
            r matches Err(e) ==> (e == CoreError::TransportError && outcome is Failure
                && final(self).state_view() == SessionState::Failed
                && final(self).known_view() == old(self).known_view())
                || (e == CoreError::ProtocolError
                && (outcome matches SignOutcome::Signature(sig) && sig@.len() != 64)
                && same_session(*final(self), *old(self))),
    {
        match outcome {
            SignOutcome::Signature(sig) => {
                if sig.len() != 64 {
                    return Err(CoreError::ProtocolError);
                }
                let mut cell_id: Vec<Vec<u8>> = Vec::new();
                let mut i: usize = 0;
                while i < request.cell_id.len()
                    invariant
                        i <= request.cell_id@.len(),
                        views_of(&cell_id) == views_of(&request.cell_id).subrange(0, i as int),
                    decreases request.cell_id@.len() - i,
                {
                    let ghost pre = views_of(&cell_id);
                    let ghost prevec = cell_id@;
                    proof {
                        assert(pre.len() == i);
                        assert(prevec.len() == i);
                    }
                    let elem = copy_bytes(&request.cell_id[i]);
                    let ghost eview = elem@;
                    proof {
                        assert(eview == request.cell_id@[i as int]@);
                    }
                    cell_id.push(elem);
                    proof {
                        assert forall|j: int| 0 <= j < i + 1 implies views_of(&cell_id)[j]
                            == views_of(&request.cell_id).subrange(0, i + 1 as int)[j] by {
                            if j < i {
                                assert(cell_id@[j] == prevec[j]);
                                assert(views_of(&cell_id)[j] == pre[j]);
                                assert(pre[j] == views_of(&request.cell_id).subrange(
                                    0,
                                    i as int,
                                )[j]);
                            } else {
                                assert(cell_id@[j]@ == eview);
                            }
                        }
                        assert(views_of(&cell_id) =~= views_of(&request.cell_id).subrange(
                            0,
                            i + 1 as int,
                        ));
                    }
                    i = i + 1;
                }
                proof {
                    assert(views_of(&cell_id) =~= views_of(&request.cell_id));
                }
                let cap_secret = match &request.cap_secret {
                    Option::Some(c) => Option::Some(copy_bytes(c)),
                    Option::None => Option::None,
                };
                let signed = ZomeCallNapi {
                    cell_id,
                    zome_name: request.zome_name.clone(),
                    fn_name: request.fn_name.clone(),
                    payload: copy_bytes(&request.payload),
                    cap_secret,
                    provenance: copy_bytes(&request.provenance),
                    nonce: copy_bytes(&request.nonce),
                    expires_at: request.expires_at,
                    signature: sig,
                };
                Ok(signed)
            },
            SignOutcome::Failure => {
                self.record_transport_failure();
                Err(CoreError::TransportError)
            },
        }
    }
}

/// Two session values agree on state and known keys.
pub open spec fn same_session(a: KeystoreSession, b: KeystoreSession) -> bool {
    a.state_view() == b.state_view() && a.known_view() == b.known_view()
}

/// A signed request carries exactly the unsigned request's field values.
pub open spec fn signed_matches(unsigned: &ZomeCallUnsignedNapi, signed: &ZomeCallNapi) -> bool {
    &&& views_of(&signed.cell_id) == views_of(&unsigned.cell_id)
    &&& signed.zome_name@ == unsigned.zome_name@
    &&& signed.fn_name@ == unsigned.fn_name@
    &&& signed.payload@ == unsigned.payload@
    &&& opt_view(&signed.cap_secret) == opt_view(&unsigned.cap_secret)
    &&& signed.provenance@ == unsigned.provenance@
    &&& signed.nonce@ == unsigned.nonce@
    &&& signed.expires_at == unsigned.expires_at
}

} // verus!
