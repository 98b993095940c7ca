use vstd::prelude::*;

use crate::state::{bytes32_same, Pubkey};

verus! {

/// The ledger entry for one counted vote, keyed by (poll, nullifier).
/// Created once by a cast and mutated in place by a recast; the history of
/// a prior choice is not retained beyond the tally adjustment.
#[derive(Clone, Copy, Debug)]
pub struct Vote {
    pub poll: Pubkey,
    pub nullifier_hash: [u8; 32],
    pub vote_choice: u8,
    pub zk_proof_hash: [u8; 32],
    pub timestamp: i64,
    pub delegate_from: Option<Pubkey>,
    pub delegate_to: bool,
    pub vote_weight: u64,
}

/// An authorization for one delegatee to cast on the delegator's behalf,
/// keyed by (poll, delegator nullifier). It does not itself cast a vote.
#[derive(Clone, Copy, Debug)]
pub struct VoteDelegation {
    pub poll: Pubkey,
    pub o_delegator: Pubkey,
    pub o_delegatee: Pubkey,
    pub is_active: bool,
    pub created_at: i64,
    pub expires_at: Option<i64>,
}

/// One consumed one-time token. Registry entries are append-only and never
/// reused: at most one may ever exist per (poll, nullifier) pair.
#[derive(Clone, Copy, Debug)]
pub struct VoterNullifier {
    pub poll: Pubkey,
    pub created_at: i64,
    pub nullifier_hash: [u8; 32],
}

/// True exactly when the registry sequence holds the given nullifier.
pub open spec fn registry_has(registry: Seq<[u8; 32]>, nullifier: [u8; 32]) -> bool {
    exists|i: int| 0 <= i < registry.len() && bytes32_same(registry[i], nullifier)
}

/// True when no nullifier occurs twice in the registry sequence.
pub open spec fn registry_unique(registry: Seq<[u8; 32]>) -> bool {
    forall|i: int, j: int|
        0 <= i < j < registry.len() ==> !bytes32_same(registry[i], registry[j])
}

/// True when the two registry sequences share no nullifier.
pub open spec fn registry_disjoint(a: Seq<[u8; 32]>, b: Seq<[u8; 32]>) -> bool {
    forall|i: int, j: int|
        0 <= i < a.len() && 0 <= j < b.len() ==> !bytes32_same(a[i], b[j])
}

/// Appending a nullifier not yet present keeps a registry duplicate-free.
pub proof fn lemma_registry_push_unique(registry: Seq<[u8; 32]>, nullifier: [u8; 32])
    requires
        registry_unique(registry),
        !registry_has(registry, nullifier),
    ensures
        registry_unique(registry.push(nullifier)),
{
    let pushed = registry.push(nullifier);
    assert forall|i: int, j: int| 0 <= i < j < pushed.len() implies !bytes32_same(
        pushed[i],
        pushed[j],
    ) by {
        if j == registry.len() {
            assert(!bytes32_same(registry[i], nullifier));
        }
    }
}

/// Appending a nullifier the second registry does not hold keeps the two
/// registries disjoint.
pub proof fn lemma_registry_push_disjoint_left(
    a: Seq<[u8; 32]>,
    b: Seq<[u8; 32]>,
    nullifier: [u8; 32],
)
    requires
        registry_disjoint(a, b),
        !registry_has(b, nullifier),
    ensures
        registry_disjoint(a.push(nullifier), b),
{
    let pushed = a.push(nullifier);
    assert forall|i: int, j: int|
        0 <= i < pushed.len() && 0 <= j < b.len() implies !bytes32_same(pushed[i], b[j]) by {
        if i == a.len() {
            assert(!bytes32_same(b[j], nullifier));
            assert(pushed[i]@ == nullifier@);
        }
    }
}

/// Appending a nullifier the first registry does not hold keeps the two
/// registries disjoint.
pub proof fn lemma_registry_push_disjoint_right(
    a: Seq<[u8; 32]>,
    b: Seq<[u8; 32]>,
    nullifier: [u8; 32],
)
    requires
        registry_disjoint(a, b),
        !registry_has(a, nullifier),
    ensures
        registry_disjoint(a, b.push(nullifier)),
{
    let pushed = b.push(nullifier);
    assert forall|i: int, j: int|
        0 <= i < a.len() && 0 <= j < pushed.len() implies !bytes32_same(a[i], pushed[j]) by {
        if j == b.len() {
            assert(!bytes32_same(a[i], nullifier));
            assert(pushed[j]@ == nullifier@);
        }
    }
}

/// Membership test against a registry of consumed nullifiers.
pub fn registry_contains(registry: &Vec<[u8; 32]>, nullifier: &[u8; 32]) -> (r: bool)
    ensures
        r == registry_has(registry@, *nullifier),
{
    let n = registry.len();
    let mut i: usize = 0;
    while i < n
        invariant
            i <= n == registry@.len(),
            forall|j: int| 0 <= j < i ==> !bytes32_same(registry@[j], *nullifier),
        decreases n - i,
    {
        if crate::state::bytes32_eq(&registry[i], nullifier) {
            return true;
        }
        i += 1;
    }
    false
}

} // verus!
