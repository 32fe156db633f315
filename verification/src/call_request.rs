//! Call requests and their canonical byte digest.
//!
//! A request is signed over a fixed-order, length-prefixed encoding of its
//! fields: destination identifier (both halves), module name, function name,
//! payload, capability secret, provenance, nonce, expiry. The encoding is a
//! pure function of the field values, so it is byte-stable across hosts and
//! runs; any change to the field order would invalidate every previously
//! issued signature and must be treated as a breaking protocol change.

use vstd::prelude::*;

use vstd::utf8::encode_utf8;

verus! {

/// An unsigned call request: destination identifier (two 39-byte hashes),
/// module and function names, payload bytes, optional 64-byte capability
/// secret, 39-byte provenance public key, 32-byte nonce, expiry timestamp in
/// microseconds.
#[derive(Clone, Debug)]
pub struct ZomeCallUnsignedNapi {
    pub cell_id: Vec<Vec<u8>>,
    pub zome_name: String,
    pub fn_name: String,
    pub payload: Vec<u8>,
    pub cap_secret: Option<Vec<u8>>,
    pub provenance: Vec<u8>,
    pub nonce: Vec<u8>,
    pub expires_at: i64,
}

/// A signed call request: the unsigned fields unchanged, plus the 64-byte
/// signature over the canonical digest.
#[derive(Debug)]
pub struct ZomeCallNapi {
    pub cell_id: Vec<Vec<u8>>,
    pub zome_name: String,
    pub fn_name: String,
    pub payload: Vec<u8>,
    pub cap_secret: Option<Vec<u8>>,
    pub provenance: Vec<u8>,
    pub nonce: Vec<u8>,
    pub expires_at: i64,
    pub signature: Vec<u8>,
}

/// Relies on std's TryFrom<Vec<T>> for arrays: converting a vector whose
/// length is exactly `N` into an array of the same elements.
#[verifier::external_body]
pub fn vec_to_arr<T, const N: usize>(v: Vec<T>) -> (r: [T; N])
    requires
        v@.len() == N,
    ensures
        r@ == v@,
{
    v.try_into().ok().unwrap()
}

/// The big-endian bytes of a 64-bit value.
pub open spec fn be64(n: u64) -> Seq<u8> {
    seq![
        ((n / 0x100000000000000) % 0x100) as u8,
        ((n / 0x1000000000000) % 0x100) as u8,
        ((n / 0x10000000000) % 0x100) as u8,
        ((n / 0x100000000) % 0x100) as u8,
        ((n / 0x1000000) % 0x100) as u8,
        ((n / 0x10000) % 0x100) as u8,
        ((n / 0x100) % 0x100) as u8,
        (n % 0x100) as u8,
    ]
}

/// A length-prefixed field: eight big-endian length bytes, then the bytes.
pub open spec fn block(b: Seq<u8>) -> Seq<u8> {
    be64(b.len() as u64) + b
}

/// An optional field: a presence byte, then the length-prefixed bytes when
/// present.
pub open spec fn opt_block(b: Option<Seq<u8>>) -> Seq<u8> {
    match b {
        Option::None => seq![0u8],
        Option::Some(x) => seq![1u8] + block(x),
    }
}

/// The byte views of a vector of byte vectors, element by element.
pub open spec fn views_of(v: &Vec<Vec<u8>>) -> Seq<Seq<u8>> {
    Seq::new(v@.len(), |i: int| v@[i]@)
}

/// The byte view of an optional byte vector.
pub open spec fn opt_view(v: &Option<Vec<u8>>) -> Option<Seq<u8>> {
    match v {
        Option::Some(c) => Option::Some(c@),
        Option::None => Option::None,
    }
}

/// The two's-complement bit pattern of a signed 64-bit value.
pub open spec fn i64_bits(n: i64) -> u64 {
    if n >= 0 {
        n as u64
    } else {
        (n + 0x10000000000000000) as u64
    }
}

/// The canonical digest bytes for the given field values, in the fixed
/// order: destination, module, function, payload, capability secret,
/// provenance, nonce, expiry.
pub open spec fn canonical_of(
    cell0: Seq<u8>,
    cell1: Seq<u8>,
    zome_name: Seq<char>,
    fn_name: Seq<char>,
    payload: Seq<u8>,
    cap_secret: Option<Seq<u8>>,
    provenance: Seq<u8>,
    nonce: Seq<u8>,
    expires_at: i64,
) -> Seq<u8> {
    block(cell0) + block(cell1) + block(encode_utf8(zome_name)) + block(encode_utf8(fn_name))
        + block(payload) + opt_block(cap_secret) + block(provenance) + block(nonce) + be64(
        i64_bits(expires_at),
    )
}

impl ZomeCallUnsignedNapi {
    /// Structurally sound: a two-part destination identifier of 39-byte
    /// hashes, a 39-byte provenance key, a 32-byte nonce, and a 64-byte
    /// capability secret when one is present.
    pub open spec fn wf(&self) -> bool {
        &&& self.cell_id@.len() == 2
        &&& self.cell_id@[0]@.len() == 39
        &&& self.cell_id@[1]@.len() == 39
        &&& self.provenance@.len() == 39
        &&& self.nonce@.len() == 32
        &&& match self.cap_secret {
            Option::Some(c) => c@.len() == 64,
            Option::None => true,
        }
    }

    /// The canonical digest of this request, as a function of its fields.
    pub open spec fn digest_view(&self) -> Seq<u8> {
        canonical_of(
            self.cell_id@[0]@,
            self.cell_id@[1]@,
            self.zome_name@,
            self.fn_name@,
            self.payload@,
            opt_view(&self.cap_secret),
            self.provenance@,
            self.nonce@,
            self.expires_at,
        )
    }

    /// Two requests with identical field values (same views, field by field).
    pub open spec fn same_fields(&self, other: &ZomeCallUnsignedNapi) -> bool {
        &&& views_of(&self.cell_id) == views_of(&other.cell_id)
        &&& self.zome_name@ == other.zome_name@
        &&& self.fn_name@ == other.fn_name@
        &&& self.payload@ == other.payload@
        &&& opt_view(&self.cap_secret) == opt_view(&other.cap_secret)
        &&& self.provenance@ == other.provenance@
        &&& self.nonce@ == other.nonce@
        &&& self.expires_at == other.expires_at
    }

    /// Canonicalize this request into its digest bytes.
    pub fn data_to_sign(&self) -> (r: Vec<u8>)
        requires
            self.wf(),
        ensures
            r@ == self.digest_view(),
    {
        let mut out: Vec<u8> = Vec::new();
        push_block(&mut out, &self.cell_id[0]);
        push_block(&mut out, &self.cell_id[1]);
        let zome_bytes = self.zome_name.as_str().as_bytes_vec();
        push_block(&mut out, &zome_bytes);
        let fn_bytes = self.fn_name.as_str().as_bytes_vec();
        push_block(&mut out, &fn_bytes);
        push_block(&mut out, &self.payload);
        match &self.cap_secret {
            Option::Some(c) => {
                out.push(1u8);
                push_block(&mut out, c);
            },
            Option::None => {
                out.push(0u8);
            },
        }
        push_block(&mut out, &self.provenance);
        push_block(&mut out, &self.nonce);
        let bits = i64_bits_exec(self.expires_at);
        push_be64(&mut out, bits);
        proof {
            assert(out@ =~= self.digest_view());
        }
        out
    }
}

/// Law: canonicalization is deterministic. Two requests with identical field
/// values have identical canonical digests, so with the same signing key
/// they produce requests signed over the same bytes.
pub proof fn lemma_canonical_deterministic(a: &ZomeCallUnsignedNapi, b: &ZomeCallUnsignedNapi)
    requires
        a.same_fields(b),
        a.wf(),
    ensures
        a.digest_view() == b.digest_view(),
{
    assert(b.cell_id@.len() == views_of(&b.cell_id).len());
    assert(b.cell_id@.len() == 2);
    assert(a.cell_id@[0]@ == views_of(&a.cell_id)[0]);
    assert(a.cell_id@[1]@ == views_of(&a.cell_id)[1]);
    assert(b.cell_id@[0]@ == views_of(&b.cell_id)[0]);
    assert(b.cell_id@[1]@ == views_of(&b.cell_id)[1]);
}

/// Append the big-endian bytes of a 64-bit value.
fn push_be64(out: &mut Vec<u8>, n: u64)
    ensures
        final(out)@ == old(out)@ + be64(n),
{
    out.push(((n / 0x100000000000000) % 0x100) as u8);
    out.push(((n / 0x1000000000000) % 0x100) as u8);
    out.push(((n / 0x10000000000) % 0x100) as u8);
    out.push(((n / 0x100000000) % 0x100) as u8);
    out.push(((n / 0x1000000) % 0x100) as u8);
    out.push(((n / 0x10000) % 0x100) as u8);
    out.push(((n / 0x100) % 0x100) as u8);
    out.push((n % 0x100) as u8);
    proof {
        assert(out@ =~= old(out)@ + be64(n));
    }
}

/// Append a length-prefixed field.
fn push_block(out: &mut Vec<u8>, b: &Vec<u8>)
    ensures
        final(out)@ == old(out)@ + block(b@),
{
    push_be64(out, b.len() as u64);
    out.extend_from_slice(b.as_slice());
    proof {
        assert(out@ =~= old(out)@ + block(b@));
    }
}

/// The two's-complement bit pattern of a signed 64-bit value, computed
/// without overflow.
fn i64_bits_exec(n: i64) -> (r: u64)
    ensures
        r == i64_bits(n),
{
    if n >= 0 {
        n as u64
    } else {
        let mag: i64 = -(n + 1);
        let r: u64 = u64::MAX - (mag as u64);
        proof {
            assert(r == n + 0x10000000000000000);
        }
        r
    }
}

} // verus!
