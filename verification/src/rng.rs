//! The randomness sources and their fairness verification.
//!
//! Three strategies produce the fatal chamber index, uniformly in
//! `[0, CHAMBERS)` under a trusted seed source:
//!
//! - commit/reveal: a seed's one-way hash is stored at start and the seed is
//!   disclosed and verified at settlement;
//! - external oracle: a domain-separated request seed is derived at start and
//!   the oracle's fulfilled randomness is read at settlement, with a clearly
//!   separated deterministic fallback for environments without the oracle;
//! - local deterministic: the chamber is fixed from the creation timestamp at
//!   start, with no reveal step.
//!
//! The one-way hash is SHA-256, taken from the ledger runtime's hasher; the
//! oracle account layout is the oracle vendor's, parsed by its own crate.

use vstd::prelude::*;
use vstd::bytes::{spec_u64_to_le_bytes, u64_to_le_bytes};
use vstd::slice::slice_to_vec;

use anchor_lang::AccountDeserialize;

use crate::errors::DegenRouletteError;
use crate::payout::CHAMBERS;

verus! {

/// The SHA-256 digest of the concatenation of `parts`: a pure function of
/// the input bytes, named rather than spelled out.
pub uninterp spec fn sha256_of(parts: Seq<Seq<u8>>) -> Seq<u8>;

/// Relies on `solana_sha256_hasher::hashv`: the SHA-256 digest of the
/// concatenated byte slices, 32 bytes, a function of the input bytes alone.
#[verifier::external_body]
fn hashv_bytes(parts: &Vec<Vec<u8>>) -> (r: Vec<u8>)
    ensures
        r@ == sha256_of(parts@.map(|i: int, p: Vec<u8>| p@)),
        r@.len() == 32,
{
    let refs: Vec<&[u8]> = parts.iter().map(|p| p.as_slice()).collect();
    let digest = solana_sha256_hasher::hashv(&refs);
    digest.to_bytes().to_vec()
}

/// What an oracle randomness account's bytes hold: `Some` of the 64
/// fulfilled randomness bytes when they parse as a fulfilled request,
/// `None` when they parse as a pending request or do not parse at all. A
/// pure function of the account bytes.
pub uninterp spec fn oracle_fulfillment_of(data: Seq<u8>) -> Option<Seq<u8>>;

/// Relies on `orao_solana_vrf::state::RandomnessV2::try_deserialize` (the
/// discriminator-checked account parse) and `RandomnessV2::fulfilled` (the
/// pending/fulfilled distinction): both are functions of the account bytes
/// alone, and a fulfilled request carries 64 bytes of randomness.
#[verifier::external_body]
fn read_fulfilled_randomness(data: &Vec<u8>) -> (r: Option<Vec<u8>>)
    ensures
        match r {
            Some(randomness) => oracle_fulfillment_of(data@) == Some(randomness@)
                && randomness@.len() == 64,
            None => oracle_fulfillment_of(data@) is None,
        },
{
    let mut buf: &[u8] = data.as_slice();
    match orao_solana_vrf::state::RandomnessV2::try_deserialize(&mut buf) {
        Ok(account) => account.fulfilled().map(|f| f.randomness.to_vec()),
        Err(_) => None,
    }
}

/// The domain-separation tag of oracle request seeds: the bytes of
/// "degen-roulette".
pub open spec fn oracle_seed_tag() -> Seq<u8> {
    seq![0x64u8, 0x65, 0x67, 0x65, 0x6e, 0x2d, 0x72, 0x6f, 0x75, 0x6c, 0x65, 0x74, 0x74, 0x65]
}

fn oracle_seed_tag_bytes() -> (r: Vec<u8>)
    ensures
        r@ == oracle_seed_tag(),
{
    let r: Vec<u8> = vec![0x64, 0x65, 0x67, 0x65, 0x6e, 0x2d, 0x72, 0x6f, 0x75, 0x6c, 0x65, 0x74, 0x74, 0x65];
    proof {
        assert(r@ =~= oracle_seed_tag());
    }
    r
}

/// The domain-separation tag of the offline fallback: the bytes of
/// "test-rng".
pub open spec fn fallback_tag() -> Seq<u8> {
    seq![0x74u8, 0x65, 0x73, 0x74, 0x2d, 0x72, 0x6e, 0x67]
}

fn fallback_tag_bytes() -> (r: Vec<u8>)
    ensures
        r@ == fallback_tag(),
{
    let r: Vec<u8> = vec![0x74, 0x65, 0x73, 0x74, 0x2d, 0x72, 0x6e, 0x67];
    proof {
        assert(r@ =~= fallback_tag());
    }
    r
}

/// Every byte of the sequence is zero.
pub open spec fn all_zeroes(s: Seq<u8>) -> bool {
    forall|i: int| 0 <= i < s.len() ==> s[i] == 0
}

/// Whether every byte of a 32-byte value is zero: the sentinel a
/// commit/reveal commitment may not be.
pub fn is_all_zero32(bytes: &[u8; 32]) -> (r: bool)
    ensures
        r == all_zeroes(bytes@),
{
    let mut i: usize = 0;
    while i < 32
        invariant
            0 <= i <= 32,
            forall|j: int| 0 <= j < i ==> bytes@[j] == 0,
        decreases 32 - i,
    {
        if bytes[i] != 0 {
            return false;
        }
        i = i + 1;
    }
    true
}

fn vec_is_all_zero(bytes: &Vec<u8>) -> (r: bool)
    ensures
        r == all_zeroes(bytes@),
{
    let mut i: usize = 0;
    let n = bytes.len();
    while i < n
        invariant
            0 <= i <= n,
            n == bytes@.len(),
            forall|j: int| 0 <= j < i ==> bytes@[j] == 0,
        decreases n - i,
    {
        if *bytes.get(i).unwrap() != 0 {
            return false;
        }
        i = i + 1;
    }
    true
}

fn bytes32_eq(a: &Vec<u8>, b: &[u8; 32]) -> (r: bool)
    requires
        a@.len() == 32,
    ensures
        r == (a@ == b@),
{
    let mut i: usize = 0;
    while i < 32
        invariant
            a@.len() == 32,
            0 <= i <= 32,
            forall|j: int| 0 <= j < i ==> a@[j] == b@[j],
        decreases 32 - i,
    {
        if *a.get(i).unwrap() != b[i] {
            return false;
        }
        i = i + 1;
    }
    proof {
        assert(a@ =~= b@);
    }
    true
}

/// A little-endian 8-byte rendering of a signed timestamp: its two's
/// complement bits, little-endian.
pub open spec fn spec_i64_to_le_bytes(x: i64) -> Seq<u8> {
    spec_u64_to_le_bytes(x as u64)
}

/// The oracle request seed of a game: the SHA-256 digest of the
/// domain-separation tag, the player identity, the ledger slot and the
/// house's lifetime game count, with an all-zero digest nudged to be
/// non-zero.
pub open spec fn spec_vrf_seed(player: Seq<u8>, slot: u64, total_games: u64) -> Seq<u8> {
    let digest = sha256_of(
        seq![
            oracle_seed_tag(),
            player,
            spec_u64_to_le_bytes(slot),
            spec_u64_to_le_bytes(total_games),
        ],
    );
    if all_zeroes(digest) {
        digest.update(0, 1u8)
    } else {
        digest
    }
}

/// Derives the domain-separated, non-zero seed that an oracle randomness
/// request for this game carries.
pub fn derive_vrf_seed(player: &[u8; 32], slot: u64, total_games: u64) -> (r: Vec<u8>)
    ensures
        r@ == spec_vrf_seed(player@, slot, total_games),
        r@.len() == 32,
{
    let mut parts: Vec<Vec<u8>> = Vec::new();
    parts.push(oracle_seed_tag_bytes());
    parts.push(slice_to_vec(player));
    parts.push(u64_to_le_bytes(slot));
    parts.push(u64_to_le_bytes(total_games));
    proof {
        assert(parts@.map(|i: int, p: Vec<u8>| p@) =~= seq![
            oracle_seed_tag(),
            player@,
            spec_u64_to_le_bytes(slot),
            spec_u64_to_le_bytes(total_games),
        ]);
    }
    let mut digest = hashv_bytes(&parts);
    if vec_is_all_zero(&digest) {
        digest.set(0, 1);
    }
    digest
}

/// The offline fallback outcome: the first digest byte of the fallback tag,
/// the player identity, the creation timestamp and the claimed rounds,
/// reduced modulo the chamber count.
pub open spec fn spec_fallback_outcome(player: Seq<u8>, created_at: i64, rounds_claimed: u8) -> u8 {
    let digest = sha256_of(
        seq![fallback_tag(), player, spec_i64_to_le_bytes(created_at), seq![rounds_claimed]],
    );
    ((digest[0] as int) % (CHAMBERS as int)) as u8
}

/// Derives the deterministic fallback outcome used when the oracle is not
/// installed; it exists to keep the engine testable offline and must never be
/// silently substituted in a live environment.
pub fn fallback_outcome(player: &[u8; 32], created_at: i64, rounds_claimed: u8) -> (r: u8)
    ensures
        r == spec_fallback_outcome(player@, created_at, rounds_claimed),
        r < CHAMBERS,
{
    let mut parts: Vec<Vec<u8>> = Vec::new();
    parts.push(fallback_tag_bytes());
    parts.push(slice_to_vec(player));
    parts.push(u64_to_le_bytes(#[verifier::truncate] (created_at as u64)));
    let mut rounds_part: Vec<u8> = Vec::new();
    rounds_part.push(rounds_claimed);
    parts.push(rounds_part);
    proof {
        assert(parts@.map(|i: int, p: Vec<u8>| p@) =~= seq![
            fallback_tag(),
            player@,
            spec_i64_to_le_bytes(created_at),
            seq![rounds_claimed],
        ]);
    }
    let digest = hashv_bytes(&parts);
    *digest.get(0).unwrap() % CHAMBERS
}

/// The commitment a commit/reveal game stores: the SHA-256 digest of the
/// server seed alone.
pub fn commitment_for_seed(seed: &[u8; 32]) -> (r: Vec<u8>)
    ensures
        r@ == sha256_of(seq![seed@]),
        r@.len() == 32,
{
    let mut parts: Vec<Vec<u8>> = Vec::new();
    parts.push(slice_to_vec(seed));
    proof {
        assert(parts@.map(|i: int, p: Vec<u8>| p@) =~= seq![seed@]);
    }
    hashv_bytes(&parts)
}

/// What revealing `seed` against a stored `commitment` yields: the first
/// seed byte modulo the chamber count exactly when the seed's hash equals
/// the commitment, and `InvalidServerSeed` otherwise.
pub open spec fn spec_reveal_outcome(seed: Seq<u8>, commitment: Seq<u8>) -> Result<
    u8,
    DegenRouletteError,
> {
    if sha256_of(seq![seed]) == commitment {
        Ok(((seed[0] as int) % (CHAMBERS as int)) as u8)
    } else {
        Err(DegenRouletteError::InvalidServerSeed)
    }
}

/// Recomputes the one-way hash of a revealed seed and checks it against the
/// stored commitment; on a match the outcome is the first seed byte modulo
/// the chamber count, otherwise the reveal fails `InvalidServerSeed`.
pub fn reveal_and_derive(seed: &[u8; 32], commitment: &[u8; 32]) -> (r: Result<
    u8,
    DegenRouletteError,
>)
    ensures
        r == spec_reveal_outcome(seed@, commitment@),
        r matches Ok(outcome) ==> outcome < CHAMBERS,
{
    let digest = commitment_for_seed(seed);
    if bytes32_eq(&digest, commitment) {
        Ok(seed[0] % CHAMBERS)
    } else {
        Err(DegenRouletteError::InvalidServerSeed)
    }
}

/// What reading an oracle randomness account yields: the first fulfilled
/// randomness byte modulo the chamber count when the account bytes hold a
/// fulfilled request, and `VrfNotFulfilled` otherwise.
pub open spec fn spec_oracle_outcome(data: Seq<u8>) -> Result<u8, DegenRouletteError> {
    match oracle_fulfillment_of(data) {
        Some(randomness) => Ok(((randomness[0] as int) % (CHAMBERS as int)) as u8),
        None => Err(DegenRouletteError::VrfNotFulfilled),
    }
}

/// Reads an oracle randomness account and reduces its fulfilled randomness
/// to a chamber index; fails `VrfNotFulfilled` while the request is pending
/// or the bytes do not parse as a randomness account.
pub fn oracle_outcome(data: &Vec<u8>) -> (r: Result<u8, DegenRouletteError>)
    ensures
        r == spec_oracle_outcome(data@),
        r matches Ok(outcome) ==> outcome < CHAMBERS,
{
    match read_fulfilled_randomness(data) {
        Some(randomness) => Ok(*randomness.get(0).unwrap() % CHAMBERS),
        None => Err(DegenRouletteError::VrfNotFulfilled),
    }
}

/// The local deterministic outcome: the creation timestamp modulo the
/// chamber count, with the mathematical (always non-negative) remainder.
pub open spec fn spec_bullet_from_timestamp(created_at: i64) -> u8 {
    ((created_at as int) % (CHAMBERS as int)) as u8
}

/// Fixes the fatal chamber of a local deterministic game from its creation
/// timestamp.
pub fn bullet_from_timestamp(created_at: i64) -> (r: u8)
    ensures
        r == spec_bullet_from_timestamp(created_at),
        r < CHAMBERS,
{
    let rem: i64 = created_at % (CHAMBERS as i64);
    let bullet: i64 = if rem < 0 {
        rem + (CHAMBERS as i64)
    } else {
        rem
    };
    bullet as u8
}

/// A reveal round-trips exactly: for any stored commitment, revealing a seed
/// succeeds if and only if the seed's one-way hash equals that commitment,
/// so any seed whose hash differs — in particular any altered seed — is
/// rejected with `InvalidServerSeed`.
pub proof fn lemma_reveal_round_trip(seed: Seq<u8>, commitment: Seq<u8>)
    ensures
        spec_reveal_outcome(seed, commitment) is Ok <==> sha256_of(seq![seed]) == commitment,
        spec_reveal_outcome(seed, commitment) is Err ==> spec_reveal_outcome(seed, commitment)
            == Err::<u8, DegenRouletteError>(DegenRouletteError::InvalidServerSeed),
{
}

} // verus!
