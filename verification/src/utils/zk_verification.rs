use vstd::prelude::*;

use crate::error::VotingError;
use crate::state::EligibilityCriteria;

verus! {

/// Shortest accepted proof artifact, in bytes.
pub const MIN_PROOF_LEN: usize = 32;

/// Longest accepted proof artifact, in bytes.
pub const MAX_PROOF_LEN: usize = 1024;

/// True of the decimal digit characters.
pub open spec fn spec_is_digit(c: char) -> bool {
    48 <= c as int <= 57
}

/// The numeric value of a digit character.
pub open spec fn digit_val(c: char) -> int {
    c as int - 48
}

/// True when every character of `s` is a decimal digit.
pub open spec fn all_digits(s: Seq<char>) -> bool {
    forall|i: int| 0 <= i < s.len() ==> spec_is_digit(#[trigger] s[i])
}

/// The value of a digit string read as a decimal number.
pub open spec fn dec_val(s: Seq<char>) -> int
    decreases s.len(),
{
    if s.len() == 0 {
        0
    } else {
        dec_val(s.drop_last()) * 10 + digit_val(s.last())
    }
}

/// A digit string's value is never negative.
pub proof fn lemma_dec_val_nonneg(s: Seq<char>)
    requires
        all_digits(s),
    ensures
        dec_val(s) >= 0,
    decreases s.len(),
{
    if s.len() > 0 {
        lemma_dec_val_nonneg(s.drop_last());
    }
}

/// Reading more digits never shrinks the value: any prefix of a digit
/// string is worth at most the whole string.
pub proof fn lemma_dec_val_prefix(s: Seq<char>, k: int)
    requires
        all_digits(s),
        0 <= k <= s.len(),
    ensures
        dec_val(s.take(k)) <= dec_val(s),
    decreases s.len(),
{
    if k == s.len() {
        assert(s.take(k) =~= s);
    } else {
        assert(s.drop_last().take(k) =~= s.take(k));
        lemma_dec_val_prefix(s.drop_last(), k);
        lemma_dec_val_nonneg(s.drop_last());
    }
}

/// The digits of a signal, once an optional leading plus sign is removed.
pub open spec fn signal_body(s: Seq<char>) -> Seq<char> {
    if s.len() > 0 && s[0] == '+' {
        s.skip(1)
    } else {
        s
    }
}

/// The small unsigned integer a signal parses as, if any: an optional
/// leading plus sign, then one or more decimal digits, with a value of at
/// most 255.
pub open spec fn parse_u8_spec(s: Seq<char>) -> Option<u8> {
    let body = signal_body(s);
    if body.len() > 0 && all_digits(body) && dec_val(body) <= 255 {
        Some(dec_val(body) as u8)
    } else {
        None
    }
}

/// True when a signal carries a decentralized-identity assertion: it starts
/// with the four characters `did:`.
pub open spec fn spec_has_did_prefix(s: Seq<char>) -> bool {
    s.len() >= 4 && s[0] == 'd' && s[1] == 'i' && s[2] == 'd' && s[3] == ':'
}

/// True when some signal carries a decentralized-identity assertion.
pub open spec fn has_did_signal(signals: Seq<Seq<char>>) -> bool {
    exists|i: int| 0 <= i < signals.len() && spec_has_did_prefix(#[trigger] signals[i])
}

/// True when the signal parses as an age of at least `min_age`.
pub open spec fn age_satisfies(s: Seq<char>, min_age: u8) -> bool {
    match parse_u8_spec(s) {
        Some(age) => age >= min_age,
        None => false,
    }
}

/// True when some signal asserts an age of at least `min_age`.
pub open spec fn has_age_signal(signals: Seq<Seq<char>>, min_age: u8) -> bool {
    exists|i: int| 0 <= i < signals.len() && age_satisfies(#[trigger] signals[i], min_age)
}

/// The failure, if any, that validating a proof artifact and its public
/// signals against the criteria reports. The proof must be 32 to 1024
/// bytes and the signals non-empty; when the criteria demand it, a
/// decentralized-identity assertion and a sufficient age assertion must
/// appear among the signals.
pub open spec fn zk_proof_err(
    proof: Seq<u8>,
    signals: Seq<Seq<char>>,
    criteria: EligibilityCriteria,
) -> Option<VotingError> {
    if proof.len() == 0 {
        Some(VotingError::InvalidZkProof)
    } else if signals.len() == 0 {
        Some(VotingError::InvalidZkProof)
    } else if proof.len() < MIN_PROOF_LEN {
        Some(VotingError::InvalidZkProof)
    } else if proof.len() > MAX_PROOF_LEN {
        Some(VotingError::InvalidZkProof)
    } else if criteria.require_did && !has_did_signal(signals) {
        Some(VotingError::ZkProofVerificationFailed)
    } else if criteria.min_age is Some && !has_age_signal(signals, criteria.min_age->0) {
        Some(VotingError::ZkProofVerificationFailed)
    } else {
        None
    }
}

/// Whether a signal starts with the four characters `did:`.
fn has_did_prefix(s: &str) -> (r: bool)
    ensures
        r == spec_has_did_prefix(s@),
{
    let n = s.unicode_len();
    if n < 4 {
        return false;
    }
    s.get_char(0) == 'd' && s.get_char(1) == 'i' && s.get_char(2) == 'd' && s.get_char(3) == ':'
}

/// Parse a signal as a small unsigned integer, as an age assertion is
/// parsed: an optional leading plus sign, then decimal digits.
fn parse_age(s: &str) -> (r: Option<u8>)
    ensures
        r == parse_u8_spec(s@),
{
    let n = s.unicode_len();
    if n == 0 {
        return None;
    }
    let start: usize = if s.get_char(0) == '+' {
        1
    } else {
        0
    };
    if n == start {
        return None;
    }
    let ghost body = signal_body(s@);
    proof {
        assert(body.len() == n - start);
        assert(forall|j: int| 0 <= j < body.len() ==> body[j] == s@[j + start]);
    }
    let mut acc: u32 = 0;
    let mut i: usize = start;
    while i < n
        invariant
            start <= i <= n,
            n == s@.len(),
            n > start,
            body == signal_body(s@),
            body.len() == n - start,
            forall|j: int| 0 <= j < body.len() ==> body[j] == s@[j + start],
            all_digits(body.take(i - start)),
            acc as int == dec_val(body.take(i - start)),
            acc <= 255,
        decreases n - i,
    {
        let c = s.get_char(i);
        if (c as u32) < 48 || (c as u32) > 57 {
            assert(!spec_is_digit(body[i - start]));
            return None;
        }
        let d = (c as u32) - 48;
        acc = acc * 10 + d;
        proof {
            let k = i - start;
            assert(body.take(k + 1).drop_last() =~= body.take(k));
            assert(body.take(k + 1).last() == body[k]);
            assert(all_digits(body.take(k + 1)));
        }
        if acc > 255 {
            proof {
                if all_digits(body) {
                    lemma_dec_val_prefix(body, i + 1 - start);
                }
            }
            return None;
        }
        i += 1;
    }
    proof {
        assert(body.take(n - start) =~= body);
    }
    Some(acc as u8)
}

/// Whether some signal carries a decentralized-identity assertion.
fn find_did_signal(public_signals: &[String]) -> (r: bool)
    ensures
        r == has_did_signal(public_signals.deep_view()),
{
    let ghost signals = public_signals.deep_view();
    let n = public_signals.len();
    let mut i: usize = 0;
    while i < n
        invariant
            i <= n == signals.len(),
            signals == public_signals.deep_view(),
            n == public_signals@.len(),
            forall|j: int| 0 <= j < signals.len() ==> signals[j] == public_signals@[j]@,
            forall|j: int| 0 <= j < i ==> !spec_has_did_prefix(#[trigger] signals[j]),
        decreases n - i,
    {
        if has_did_prefix(public_signals[i].as_str()) {
            proof {
                assert(spec_has_did_prefix(signals[i as int]));
            }
            return true;
        }
        i += 1;
    }
    false
}

/// Whether some signal asserts an age of at least `min_age`.
fn find_age_signal(public_signals: &[String], min_age: u8) -> (r: bool)
    ensures
        r == has_age_signal(public_signals.deep_view(), min_age),
{
    let ghost signals = public_signals.deep_view();
    let n = public_signals.len();
    let mut i: usize = 0;
    while i < n
        invariant
            i <= n == signals.len(),
            signals == public_signals.deep_view(),
            n == public_signals@.len(),
            forall|j: int| 0 <= j < signals.len() ==> signals[j] == public_signals@[j]@,
            forall|j: int| 0 <= j < i ==> !age_satisfies(#[trigger] signals[j], min_age),
        decreases n - i,
    {
        match parse_age(public_signals[i].as_str()) {
            Some(age) => {
                if age >= min_age {
                    proof {
                        assert(age_satisfies(signals[i as int], min_age));
                    }
                    return true;
                }
            },
            None => {},
        }
        i += 1;
    }
    false
}

/// Validate a proof artifact and its public signals against a poll's
/// eligibility criteria.
///
/// Accepts exactly when the artifact is 32 to 1024 bytes, the signals are
/// non-empty, a `did:`-prefixed signal appears whenever the criteria demand
/// a decentralized-identity assertion, and a signal parsing as an age of at
/// least the criteria's minimum appears whenever one is set. Never
/// partially validates: any failed check rejects the whole submission.
pub fn verify_zk_proof(
    proof: &[u8],
    public_signals: &[String],
    eligibility_criteria: &EligibilityCriteria,
) -> (r: Result<bool, VotingError>)
    ensures
        match zk_proof_err(proof@, public_signals.deep_view(), *eligibility_criteria) {
            Some(e) => r == Err::<bool, VotingError>(e),
            None => r == Ok::<bool, VotingError>(true),
        },
{
    if proof.len() == 0 {
        return Err(VotingError::InvalidZkProof);
    }
    if public_signals.len() == 0 {
        return Err(VotingError::InvalidZkProof);
    }
    if proof.len() < MIN_PROOF_LEN {
        return Err(VotingError::InvalidZkProof);
    }
    if proof.len() > MAX_PROOF_LEN {
        return Err(VotingError::InvalidZkProof);
    }
    if eligibility_criteria.require_did && !find_did_signal(public_signals) {
        return Err(VotingError::ZkProofVerificationFailed);
    }
    match eligibility_criteria.min_age {
        Some(min_age) => {
            if !find_age_signal(public_signals, min_age) {
                return Err(VotingError::ZkProofVerificationFailed);
            }
        },
        None => {},
    }
    Ok(true)
}

} // verus!
