//! The address a create transaction deploys its contract at. The decoding of
//! this field is protocol-version-sensitive: before the transition height the
//! address derives from the sender and nonce, from the transition height on it
//! derives from the code alone.

use vstd::prelude::*;
use tiny_keccak::Hasher;
use tiny_keccak::Keccak;

verus! {

use crate::encoding::{minimal_bytes, push_slice, strip_zero_bytes};
use crate::types::{Address, Bytes, U256, address_wf, u256_wf};

/// The Keccak-256 digest of a byte string.
pub uninterp spec fn keccak256_of(data: Seq<u8>) -> Seq<u8>;

/// Relies on tiny_keccak's `Keccak::v256`: a 32-byte Keccak-256 digest that is
/// a function of the input bytes alone.
#[verifier::external_body]
fn keccak256(data: &Vec<u8>) -> (r: Vec<u8>)
    ensures
        r@ == keccak256_of(data@),
        r@.len() == 32,
{
    let mut hasher = Keccak::v256();
    hasher.update(data.as_slice());
    let mut digest = [0u8; 32];
    hasher.finalize(&mut digest);
    digest.to_vec()
}

/// The RLP encoding of one byte-string item of at most 55 bytes.
pub open spec fn rlp_item(payload: Seq<u8>) -> Seq<u8> {
    if payload.len() == 1 && payload[0] < 128 {
        payload
    } else {
        seq![(128 + payload.len()) as u8] + payload
    }
}

/// The RLP encoding of the two-item list of a 20-byte sender address and a
/// minimal big-endian nonce.
pub open spec fn rlp_sender_nonce(sender: Seq<u8>, nonce: Seq<u8>) -> Seq<u8> {
    let payload = rlp_item(sender) + rlp_item(strip_zero_bytes(nonce));
    seq![(192 + payload.len()) as u8] + payload
}

proof fn lemma_strip_zero_bytes_len(s: Seq<u8>)
    ensures
        strip_zero_bytes(s).len() <= s.len(),
    decreases s.len(),
{
    if s.len() != 0 && s[0] == 0 {
        lemma_strip_zero_bytes_len(s.skip(1));
    }
}

/// The RLP list [sender, minimal nonce], the preimage of a pre-transition
/// created-contract address.
pub fn rlp_address_nonce(sender: &Address, nonce: &U256) -> (r: Vec<u8>)
    requires
        address_wf(sender@),
        u256_wf(nonce@),
    ensures
        r@ == rlp_sender_nonce(sender@, nonce@),
{
    proof {
        lemma_strip_zero_bytes_len(nonce@);
    }
    let min_nonce = minimal_bytes(nonce.bytes.as_slice());
    let mut payload: Vec<u8> = Vec::new();
    payload.push(128 + 20);
    push_slice(&mut payload, sender.bytes.as_slice());
    proof {
        assert(payload@ =~= rlp_item(sender@));
    }
    if min_nonce.len() == 1 && min_nonce[0] < 128 {
        push_slice(&mut payload, min_nonce.as_slice());
    } else {
        payload.push(128 + min_nonce.len() as u8);
        push_slice(&mut payload, min_nonce.as_slice());
    }
    proof {
        assert(payload@ =~= rlp_item(sender@) + rlp_item(strip_zero_bytes(nonce@)));
    }
    let mut r: Vec<u8> = Vec::new();
    r.push(192 + payload.len() as u8);
    push_slice(&mut r, payload.as_slice());
    proof {
        assert(r@ =~= rlp_sender_nonce(sender@, nonce@));
    }
    r
}

/// The created-contract address for the given scheme: the last 20 bytes of
/// the Keccak-256 digest of the RLP list [sender, minimal nonce] before the
/// transition, of the digest of the code from the transition on.
pub open spec fn spec_created_address(
    sender: Seq<u8>,
    nonce: Seq<u8>,
    code: Seq<u8>,
    post_transition: bool,
) -> Seq<u8> {
    if post_transition {
        keccak256_of(code).skip(12)
    } else {
        keccak256_of(rlp_sender_nonce(sender, nonce)).skip(12)
    }
}

/// Computes the created-contract address of a create transaction.
pub fn created_address(sender: &Address, nonce: &U256, code: &Bytes, post_transition: bool) -> (r:
    Address)
    requires
        address_wf(sender@),
        u256_wf(nonce@),
    ensures
        r@ == spec_created_address(sender@, nonce@, code@, post_transition),
        address_wf(r@),
{
    let digest: Vec<u8> = if post_transition {
        keccak256(&code.bytes)
    } else {
        let rlp = rlp_address_nonce(sender, nonce);
        keccak256(&rlp)
    };
    let mut out: Vec<u8> = Vec::new();
    let mut i: usize = 12;
    while i < 32
        invariant
            digest@.len() == 32,
            12 <= i <= 32,
            out@ == digest@.subrange(12, i as int),
        decreases 32 - i,
    {
        out.push(digest[i]);
        proof {
            assert(digest@.subrange(12, i + 1) =~= digest@.subrange(12, i as int).push(
                digest@[i as int],
            ));
        }
        i += 1;
    }
    proof {
        assert(out@ =~= digest@.skip(12));
    }
    Address { bytes: out }
}

} // verus!
