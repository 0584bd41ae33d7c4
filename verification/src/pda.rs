use vstd::prelude::*;
use vstd::string::StringSliceAdditionalSpecFns;

use crate::pubkey::Pubkey;

verus! {

/// Seed prefix of a client's account address.
pub const CLIENT_SEED: &'static str = "DSYNC_CLIENT";

/// Seed prefix of a job's token vault address.
pub const VAULT_SEED: &'static str = "DSYNC_VAULT";

/// Seed of the program authority that owns the job vaults.
pub const AUTHORITY_SEED: &'static str = "DSYNC_AUTHORITY";

/// Seed prefix of a job's account address.
pub const JOB_SEED: &'static str = "DSYNC_JOB";

/// Seed prefix of a submission's account address.
pub const SUBMISSION_SEED: &'static str = "DSYNC_SUBMISSION";

/// Most seeds an address may be derived from.
pub const MAX_SEEDS: usize = 16;

/// Longest seed, in bytes.
pub const MAX_SEED_LEN: usize = 32;

/// The address that the runtime derives from `seeds` (the bump seed among them)
/// and a program id: a hash of the seeds, the program id and a fixed marker,
/// or `None` where that hash is a point of the ed25519 curve.
pub uninterp spec fn derived_address(seeds: Seq<Seq<u8>>, program_id: Seq<u8>) -> Option<Seq<u8>>;

/// The seed count and every seed's length are within the runtime's limits.
pub open spec fn seeds_within_limits(seeds: Seq<Seq<u8>>) -> bool {
    &&& seeds.len() <= MAX_SEEDS
    &&& forall|i: int| 0 <= i < seeds.len() ==> #[trigger] seeds[i].len() <= MAX_SEED_LEN
}

/// `seeds` followed by the one-byte bump seed.
pub open spec fn with_bump(seeds: Seq<Seq<u8>>, bump: u8) -> Seq<Seq<u8>> {
    seeds.push(seq![bump])
}

/// What creating an address from `seeds` gives: `None` where the seeds break
/// the limits or derive no valid address.
pub open spec fn created_address(seeds: Seq<Seq<u8>>, program_id: Seq<u8>) -> Option<Seq<u8>> {
    if seeds_within_limits(seeds) {
        derived_address(seeds, program_id)
    } else {
        None
    }
}

/// `bump` is the greatest bump in 1..=255 for which `seeds` and the bump
/// derive an address, and that address is `address`.
pub open spec fn is_canonical(seeds: Seq<Seq<u8>>, program_id: Seq<u8>, address: Seq<u8>, bump: u8) -> bool {
    &&& 1 <= bump
    &&& created_address(with_bump(seeds, bump), program_id) == Some(address)
    &&& forall|c: u8| bump < c ==> #[trigger] created_address(with_bump(seeds, c), program_id) is None
}

/// No bump in 1..=255 makes `seeds` derive an address.
pub open spec fn no_viable_bump(seeds: Seq<Seq<u8>>, program_id: Seq<u8>) -> bool {
    forall|c: u8| 1 <= c ==> #[trigger] created_address(with_bump(seeds, c), program_id) is None
}

/// Calls `Pubkey::create_program_address` of the Solana program library, on
/// seeds within the limits (at most 16 seeds of at most 32 bytes each).
/// Claimed of it: it gives the hash-derived address, and fails where that
/// hash lies on the ed25519 curve. Which bytes the hash yields is not stated.
#[verifier::external_body]
pub(crate) fn create_program_address(seeds: &Vec<Vec<u8>>, program_id: &Pubkey) -> (r: Option<Pubkey>)
    requires
        seeds_within_limits(seeds.deep_view()),
    ensures
        r matches Some(k) ==> derived_address(seeds.deep_view(), program_id@) == Some(k@),
        r is None ==> derived_address(seeds.deep_view(), program_id@) is None,
{
    let refs: Vec<&[u8]> = seeds.iter().map(|s| s.as_slice()).collect();
    let id = anchor_lang::prelude::Pubkey::new_from_array(program_id.bytes);
    anchor_lang::prelude::Pubkey::create_program_address(&refs, &id).ok().map(|k| Pubkey { bytes: k.to_bytes() })
}

/// Calls `Pubkey::try_find_program_address` of the Solana program library, on
/// seeds that stay within the limits with a bump seed appended (fewer than 16
/// seeds of at most 32 bytes each). Claimed of it: it tries the bumps 255,
/// 254, ..., 1 in turn, appending each as a last one-byte seed, and gives the
/// first address that `create_program_address` creates together with its
/// bump; it gives `None` where no bump in that range works.
#[verifier::external_body]
pub(crate) fn find_program_address(seeds: &Vec<Vec<u8>>, program_id: &Pubkey) -> (r: Option<(Pubkey, u8)>)
    requires
        seeds.deep_view().len() < MAX_SEEDS,
        seeds_within_limits(seeds.deep_view()),
    ensures
        r matches Some((k, b)) ==> is_canonical(seeds.deep_view(), program_id@, k@, b),
        r is None ==> no_viable_bump(seeds.deep_view(), program_id@),
{
    let refs: Vec<&[u8]> = seeds.iter().map(|s| s.as_slice()).collect();
    let id = anchor_lang::prelude::Pubkey::new_from_array(program_id.bytes);
    anchor_lang::prelude::Pubkey::try_find_program_address(&refs, &id).map(|(k, b)| (Pubkey { bytes: k.to_bytes() }, b))
}

/// The address and bump that a search from bump 255 down finds for `seeds`,
/// if any bump works.
pub open spec fn canonical_address(seeds: Seq<Seq<u8>>, program_id: Seq<u8>) -> Option<(Seq<u8>, u8)> {
    if exists|a: Seq<u8>, b: u8| is_canonical(seeds, program_id, a, b) {
        Some(choose|a: Seq<u8>, b: u8| is_canonical(seeds, program_id, a, b))
    } else {
        None
    }
}

/// Seeds have at most one canonical address and bump.
pub proof fn lemma_canonical_unique(
    seeds: Seq<Seq<u8>>,
    program_id: Seq<u8>,
    a1: Seq<u8>,
    b1: u8,
    a2: Seq<u8>,
    b2: u8,
)
    requires
        is_canonical(seeds, program_id, a1, b1),
        is_canonical(seeds, program_id, a2, b2),
    ensures
        a1 == a2,
        b1 == b2,
{
    if b1 < b2 {
        assert(created_address(with_bump(seeds, b2), program_id) is None);
    }
    if b2 < b1 {
        assert(created_address(with_bump(seeds, b1), program_id) is None);
    }
}

/// A found address and bump are the canonical ones.
pub proof fn lemma_found_is_canonical(seeds: Seq<Seq<u8>>, program_id: Seq<u8>, a: Seq<u8>, b: u8)
    requires
        is_canonical(seeds, program_id, a, b),
    ensures
        canonical_address(seeds, program_id) == Some((a, b)),
{
    let (a2, b2) = choose|a2: Seq<u8>, b2: u8| is_canonical(seeds, program_id, a2, b2);
    lemma_canonical_unique(seeds, program_id, a, b, a2, b2);
}

/// Seeds with no viable bump have no canonical address.
pub proof fn lemma_none_found(seeds: Seq<Seq<u8>>, program_id: Seq<u8>)
    requires
        no_viable_bump(seeds, program_id),
    ensures
        canonical_address(seeds, program_id) is None,
{
    assert forall|a: Seq<u8>, b: u8| !is_canonical(seeds, program_id, a, b) by {
        if 1 <= b {
            assert(created_address(with_bump(seeds, b), program_id) is None);
        }
    }
}

/// Seeds with a bump appended are within the limits exactly when there are
/// fewer than the most seeds and each is within the limits.
pub proof fn lemma_with_bump_within_limits(seeds: Seq<Seq<u8>>, bump: u8)
    ensures
        seeds_within_limits(with_bump(seeds, bump)) <==> (seeds.len() < MAX_SEEDS && seeds_within_limits(seeds)),
{
    let s = with_bump(seeds, bump);
    if seeds_within_limits(s) {
        assert forall|i: int| 0 <= i < seeds.len() implies #[trigger] seeds[i].len() <= MAX_SEED_LEN by {
            assert(s[i] == seeds[i]);
        }
    }
    if seeds.len() < MAX_SEEDS && seeds_within_limits(seeds) {
        assert forall|i: int| 0 <= i < s.len() implies #[trigger] s[i].len() <= MAX_SEED_LEN by {
            if i < seeds.len() {
                assert(s[i] == seeds[i]);
            }
        }
    }
}

/// Whether the seeds are within the runtime's limits.
pub fn within_limits(seeds: &Vec<Vec<u8>>) -> (r: bool)
    ensures
        r == seeds_within_limits(seeds.deep_view()),
{
    proof {
        lemma_seeds_deep_view(seeds);
    }
    if seeds.len() > MAX_SEEDS {
        return false;
    }
    let mut i: usize = 0;
    while i < seeds.len()
        invariant
            0 <= i <= seeds.len(),
            seeds.deep_view().len() == seeds@.len(),
            forall|j: int| 0 <= j < seeds@.len() ==> #[trigger] seeds.deep_view()[j] == seeds@[j]@,
            forall|j: int| 0 <= j < i ==> #[trigger] seeds.deep_view()[j].len() <= MAX_SEED_LEN,
        decreases seeds.len() - i,
    {
        if seeds[i].len() > MAX_SEED_LEN {
            assert(seeds.deep_view()[i as int].len() > MAX_SEED_LEN);
            return false;
        }
        i = i + 1;
    }
    true
}

/// Searches the canonical address and bump of `seeds`.
pub fn find_canonical(seeds: &Vec<Vec<u8>>, program_id: &Pubkey) -> (r: Option<(Pubkey, u8)>)
    ensures
        match r {
            Some((k, b)) => canonical_address(seeds.deep_view(), program_id@) == Some((k@, b)),
            None => canonical_address(seeds.deep_view(), program_id@) is None,
        },
{
    proof {
        lemma_seeds_deep_view(seeds);
    }
    if seeds.len() >= MAX_SEEDS || !within_limits(seeds) {
        proof {
            assert forall|c: u8| 1 <= c implies #[trigger] created_address(with_bump(seeds.deep_view(), c), program_id@) is None by {
                lemma_with_bump_within_limits(seeds.deep_view(), c);
            }
            lemma_none_found(seeds.deep_view(), program_id@);
        }
        return None;
    }
    let r = find_program_address(seeds, program_id);
    proof {
        match r {
            Some((k, b)) => lemma_found_is_canonical(seeds.deep_view(), program_id@, k@, b),
            None => lemma_none_found(seeds.deep_view(), program_id@),
        }
    }
    r
}

/// Recreates the address of `seeds` and `bump`.
pub fn create_with_bump(seeds: &Vec<Vec<u8>>, bump: u8, program_id: &Pubkey) -> (r: Option<Pubkey>)
    ensures
        match r {
            Some(k) => created_address(with_bump(seeds.deep_view(), bump), program_id@) == Some(k@),
            None => created_address(with_bump(seeds.deep_view(), bump), program_id@) is None,
        },
{
    let s = push_bump(seeds, bump);
    if !within_limits(&s) {
        return None;
    }
    create_program_address(&s, program_id)
}

/// A seed made of the bytes of a string.
pub fn str_seed(s: &str) -> (v: Vec<u8>)
    ensures
        v@ == s.spec_bytes(),
{
    let b = s.as_bytes();
    let mut v: Vec<u8> = Vec::new();
    let mut i: usize = 0;
    while i < b.len()
        invariant
            0 <= i <= b@.len(),
            b@ == s.spec_bytes(),
            v@ == b@.take(i as int),
        decreases b@.len() - i,
    {
        v.push(b[i]);
        i = i + 1;
        assert(v@ =~= b@.take(i as int));
    }
    assert(b@.take(b@.len() as int) =~= b@);
    v
}

/// The deep view of a list of seeds is the list of the seeds' byte sequences.
pub proof fn lemma_seeds_deep_view(s: &Vec<Vec<u8>>)
    ensures
        s.deep_view().len() == s@.len(),
        forall|i: int| 0 <= i < s@.len() ==> #[trigger] s.deep_view()[i] == s@[i]@,
{
    assert forall|i: int| 0 <= i < s@.len() implies #[trigger] s.deep_view()[i] == s@[i]@ by {
        assert(s@[i].deep_view() =~= s@[i]@);
    }
}

/// The seeds of a client's account: the client seed and the owner's address.
pub open spec fn client_seeds(owner: Seq<u8>) -> Seq<Seq<u8>> {
    seq![CLIENT_SEED.spec_bytes(), owner]
}

/// The seeds of a job's account: the job seed, the client's address and the
/// little-endian bytes of the job's number.
pub open spec fn job_seeds(client: Seq<u8>, index: u64) -> Seq<Seq<u8>> {
    seq![JOB_SEED.spec_bytes(), client, vstd::bytes::spec_u64_to_le_bytes(index)]
}

/// The seeds of a job's vault: the vault seed and the job's address.
pub open spec fn vault_seeds(job: Seq<u8>) -> Seq<Seq<u8>> {
    seq![VAULT_SEED.spec_bytes(), job]
}

/// The seeds of a submission: the submission seed, the worker's and the job's addresses.
pub open spec fn submission_seeds(worker: Seq<u8>, job: Seq<u8>) -> Seq<Seq<u8>> {
    seq![SUBMISSION_SEED.spec_bytes(), worker, job]
}

/// The seeds of the vault authority.
pub open spec fn authority_seeds() -> Seq<Seq<u8>> {
    seq![AUTHORITY_SEED.spec_bytes()]
}

/// Builds [`client_seeds`].
pub fn make_client_seeds(owner: &Pubkey) -> (s: Vec<Vec<u8>>)
    ensures
        s.deep_view() == client_seeds(owner@),
{
    let mut s: Vec<Vec<u8>> = Vec::new();
    s.push(str_seed(CLIENT_SEED));
    s.push(owner.to_seed());
    proof { lemma_seeds_deep_view(&s); }
    assert(s.deep_view() =~= client_seeds(owner@));
    s
}

/// Builds [`job_seeds`].
pub fn make_job_seeds(client: &Pubkey, index: u64) -> (s: Vec<Vec<u8>>)
    ensures
        s.deep_view() == job_seeds(client@, index),
{
    let mut s: Vec<Vec<u8>> = Vec::new();
    s.push(str_seed(JOB_SEED));
    s.push(client.to_seed());
    s.push(vstd::bytes::u64_to_le_bytes(index));
    proof { lemma_seeds_deep_view(&s); }
    assert(s.deep_view() =~= job_seeds(client@, index));
    s
}

/// Builds [`vault_seeds`].
pub fn make_vault_seeds(job: &Pubkey) -> (s: Vec<Vec<u8>>)
    ensures
        s.deep_view() == vault_seeds(job@),
{
    let mut s: Vec<Vec<u8>> = Vec::new();
    s.push(str_seed(VAULT_SEED));
    s.push(job.to_seed());
    proof { lemma_seeds_deep_view(&s); }
    assert(s.deep_view() =~= vault_seeds(job@));
    s
}

/// Builds [`submission_seeds`].
pub fn make_submission_seeds(worker: &Pubkey, job: &Pubkey) -> (s: Vec<Vec<u8>>)
    ensures
        s.deep_view() == submission_seeds(worker@, job@),
{
    let mut s: Vec<Vec<u8>> = Vec::new();
    s.push(str_seed(SUBMISSION_SEED));
    s.push(worker.to_seed());
    s.push(job.to_seed());
    proof { lemma_seeds_deep_view(&s); }
    assert(s.deep_view() =~= submission_seeds(worker@, job@));
    s
}

/// Builds [`authority_seeds`].
pub fn make_authority_seeds() -> (s: Vec<Vec<u8>>)
    ensures
        s.deep_view() == authority_seeds(),
{
    let mut s: Vec<Vec<u8>> = Vec::new();
    s.push(str_seed(AUTHORITY_SEED));
    proof { lemma_seeds_deep_view(&s); }
    assert(s.deep_view() =~= authority_seeds());
    s
}

/// `seeds` with the one-byte bump seed appended.
pub fn push_bump(seeds: &Vec<Vec<u8>>, bump: u8) -> (s: Vec<Vec<u8>>)
    ensures
        s.deep_view() == with_bump(seeds.deep_view(), bump),
{
    let mut s: Vec<Vec<u8>> = Vec::new();
    let mut i: usize = 0;
    while i < seeds.len()
        invariant
            0 <= i <= seeds.len(),
            s@.len() == i,
            forall|j: int| 0 <= j < i ==> #[trigger] s@[j]@ == seeds@[j]@,
        decreases seeds.len() - i,
    {
        let seed = seeds[i].clone();
        assert(seed@ =~= seeds@[i as int]@);
        s.push(seed);
        i = i + 1;
    }
    let mut b: Vec<u8> = Vec::new();
    b.push(bump);
    s.push(b);
    proof {
        lemma_seeds_deep_view(&s);
        lemma_seeds_deep_view(seeds);
        assert(s@[seeds.len() as int]@ =~= seq![bump]);
    }
    assert(s.deep_view() =~= with_bump(seeds.deep_view(), bump));
    s
}

} // verus!
