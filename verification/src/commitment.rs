//! The commitment codec: a binding hash over a click count, a nonce and the
//! identity of the player who commits.

use vstd::bytes::{
    lemma_auto_spec_u32_to_from_le_bytes, lemma_auto_spec_u64_to_from_le_bytes,
    spec_u32_to_le_bytes, spec_u64_to_le_bytes, u32_to_le_bytes, u64_to_le_bytes,
};
use vstd::prelude::*;

verus! {

/// A 32-byte identifier: of a player, of a ledger or of a session.
pub type Key = [u8; 32];

/// A 32-byte digest.
pub type Hash32 = [u8; 32];

/// The SHA-256 digest of `data`.
pub uninterp spec fn spec_sha256(data: Seq<u8>) -> Seq<u8>;

/// Hashes `data` with `anchor_lang::solana_program::hash::hash` and takes the
/// digest's bytes with `Hash::to_bytes`.
///
/// Trusted: the digest is a function of the bytes of `data` alone, named
/// `spec_sha256`. Nothing else is claimed of it.
#[verifier::external_body]
fn sha256(data: &[u8]) -> (digest: Hash32)
    ensures
        digest@ == spec_sha256(data@),
{
    anchor_lang::solana_program::hash::hash(data).to_bytes()
}

/// What is hashed: `clicks` in little-endian order (4 bytes), then `nonce`
/// in little-endian order (8 bytes), then the player's identity.
pub open spec fn commitment_preimage(clicks: u32, nonce: u64, player_id: Seq<u8>) -> Seq<u8> {
    spec_u32_to_le_bytes(clicks) + spec_u64_to_le_bytes(nonce) + player_id
}

/// The commitment to `clicks` under `nonce` by `player_id`.
pub open spec fn spec_commit(clicks: u32, nonce: u64, player_id: Seq<u8>) -> Seq<u8> {
    spec_sha256(commitment_preimage(clicks, nonce, player_id))
}

/// Whether `hash` is the commitment to `clicks` under `nonce` by `player_id`.
pub open spec fn spec_verify(hash: Seq<u8>, clicks: u32, nonce: u64, player_id: Seq<u8>) -> bool {
    hash == spec_commit(clicks, nonce, player_id)
}

/// Tells whether two 32-byte values hold the same bytes.
pub fn same_bytes(a: &[u8; 32], b: &[u8; 32]) -> (same: bool)
    ensures
        same == (a@ == b@),
        same == (*a == *b),
{
    let mut i: usize = 0;
    while i < 32
        invariant
            i <= 32,
            forall|j: int| 0 <= j < i ==> a@[j] == b@[j],
        decreases 32 - i,
    {
        if a[i] != b[i] {
            return false;
        }
        i += 1;
    }
    assert(a@ =~= b@);
    assert(*a =~= *b);
    true
}

/// Builds the bytes that are hashed for a commitment.
pub fn preimage(clicks: u32, nonce: u64, player_id: &[u8]) -> (data: Vec<u8>)
    ensures
        data@ == commitment_preimage(clicks, nonce, player_id@),
{
    let mut data: Vec<u8> = u32_to_le_bytes(clicks);
    let nonce_bytes: Vec<u8> = u64_to_le_bytes(nonce);
    let ghost head = data@;
    data.extend_from_slice(nonce_bytes.as_slice());
    assert(data@ =~= head + nonce_bytes@);
    let ghost front = data@;
    data.extend_from_slice(player_id);
    assert(data@ =~= front + player_id@);
    data
}

/// Computes the commitment to `clicks` under `nonce` by `player_id`.
pub fn commit(clicks: u32, nonce: u64, player_id: &[u8]) -> (hash: Hash32)
    ensures
        hash@ == spec_commit(clicks, nonce, player_id@),
{
    let data: Vec<u8> = preimage(clicks, nonce, player_id);
    sha256(data.as_slice())
}

/// Recomputes the commitment and compares it with `hash`, byte for byte.
pub fn verify(hash: &Hash32, clicks: u32, nonce: u64, player_id: &[u8]) -> (ok: bool)
    ensures
        ok == spec_verify(hash@, clicks, nonce, player_id@),
{
    let recomputed: Hash32 = commit(clicks, nonce, player_id);
    same_bytes(&recomputed, hash)
}

/// A commitment verifies against the values it was made from.
pub proof fn lemma_commit_verifies(clicks: u32, nonce: u64, player_id: Seq<u8>)
    ensures
        spec_verify(spec_commit(clicks, nonce, player_id), clicks, nonce, player_id),
{
}

/// Two different triples of click count, nonce and identity are never hashed
/// as the same bytes: the preimage determines all three.
pub proof fn lemma_preimage_injective(
    clicks1: u32,
    nonce1: u64,
    player1: Seq<u8>,
    clicks2: u32,
    nonce2: u64,
    player2: Seq<u8>,
)
    requires
        commitment_preimage(clicks1, nonce1, player1) == commitment_preimage(
            clicks2,
            nonce2,
            player2,
        ),
    ensures
        clicks1 == clicks2,
        nonce1 == nonce2,
        player1 == player2,
{
    lemma_auto_spec_u32_to_from_le_bytes();
    lemma_auto_spec_u64_to_from_le_bytes();
    let left = commitment_preimage(clicks1, nonce1, player1);
    let right = commitment_preimage(clicks2, nonce2, player2);
    assert(left.subrange(0, 4) =~= spec_u32_to_le_bytes(clicks1));
    assert(right.subrange(0, 4) =~= spec_u32_to_le_bytes(clicks2));
    assert(left.subrange(4, 12) =~= spec_u64_to_le_bytes(nonce1));
    assert(right.subrange(4, 12) =~= spec_u64_to_le_bytes(nonce2));
    assert(left.subrange(12, left.len() as int) =~= player1);
    assert(right.subrange(12, right.len() as int) =~= player2);
}

} // verus!
