use vstd::prelude::*;

use crate::error::VotingError;

verus! {

/// The credits one more unit of weight costs, at position `i` of the curve:
/// past the end, the last configured cost keeps applying.
pub open spec fn curve_step(curve: Seq<u64>, i: int) -> u64
    recommends
        curve.len() > 0,
        i >= 0,
{
    if i < curve.len() {
        curve[i]
    } else {
        curve[curve.len() - 1]
    }
}

/// The credits a vote of the given weight costs: the sum of the per-unit
/// costs of its first `weight` units.
pub open spec fn curve_cost(curve: Seq<u64>, weight: int) -> int
    recommends
        curve.len() > 0,
    decreases weight,
{
    if weight <= 0 {
        0
    } else {
        curve_cost(curve, weight - 1) + curve_step(curve, weight - 1)
    }
}

/// The cost curve is monotonic: more weight never costs fewer credits.
pub proof fn lemma_curve_cost_mono(curve: Seq<u64>, w1: int, w2: int)
    requires
        curve.len() > 0,
        0 <= w1 <= w2,
    ensures
        0 <= curve_cost(curve, w1) <= curve_cost(curve, w2),
    decreases w2,
{
    if w2 > 0 {
        if w1 == w2 {
            lemma_curve_cost_mono(curve, w1 - 1, w2 - 1);
        } else {
            lemma_curve_cost_mono(curve, w1, w2 - 1);
        }
    }
}

/// Past the end of the curve, each further unit costs the last configured
/// step, so the cost grows linearly from there.
pub proof fn lemma_curve_cost_past_end(curve: Seq<u64>, weight: int)
    requires
        curve.len() > 0,
        weight >= curve.len(),
    ensures
        curve_cost(curve, weight) == curve_cost(curve, curve.len() as int) + (weight
            - curve.len()) * curve[curve.len() - 1],
    decreases weight,
{
    let n = curve.len() as int;
    let last = curve[n - 1];
    if weight == n {
        assert((weight - n) * last == 0);
    } else {
        lemma_curve_cost_past_end(curve, weight - 1);
        assert((weight - n) * last == (weight - 1 - n) * last + last) by (nonlinear_arith);
    }
}

/// The failure, if any, that evaluating the cost curve at the given weight
/// reports: the weight must be positive, the curve non-empty, and the cost
/// must fit in 64 bits.
pub open spec fn quadratic_cost_err(curve: Seq<u64>, weight: u64) -> Option<VotingError> {
    if weight == 0 {
        Some(VotingError::InvalidVoteWeight)
    } else if curve.len() == 0 {
        Some(VotingError::InvalidVoteWeight)
    } else if curve_cost(curve, weight as int) > u64::MAX {
        Some(VotingError::ArithmeticOverflow)
    } else {
        None
    }
}

/// Evaluate the configured cost curve at the requested weight.
///
/// Deterministic and overflow-checked: returns exactly the credits the
/// weight costs, or the failure [`quadratic_cost_err`] names.
pub fn calculate_quadratic_cost(curve: &Vec<u64>, weight: u64) -> (r: Result<u64, VotingError>)
    ensures
        match r {
            Ok(cost) => quadratic_cost_err(curve@, weight) is None && cost as int == curve_cost(
                curve@,
                weight as int,
            ),
            Err(e) => quadratic_cost_err(curve@, weight) == Some(e),
        },
{
    if weight == 0 {
        return Err(VotingError::InvalidVoteWeight);
    }
    let n = curve.len();
    if n == 0 {
        return Err(VotingError::InvalidVoteWeight);
    }
    let prefix_len: u64 = if (n as u64) < weight {
        n as u64
    } else {
        weight
    };
    let mut acc: u64 = 0;
    let mut i: usize = 0;
    while (i as u64) < prefix_len
        invariant
            n == curve@.len(),
            n > 0,
            weight > 0,
            prefix_len == if (n as u64) < weight {
                n as u64
            } else {
                weight
            },
            i as u64 <= prefix_len,
            acc as int == curve_cost(curve@, i as int),
        decreases prefix_len - i as u64,
    {
        let step = curve[i];
        proof {
            assert(curve_step(curve@, i as int) == curve@[i as int]);
            assert(curve_cost(curve@, i + 1) == curve_cost(curve@, i as int) + curve_step(
                curve@,
                i as int,
            ));
        }
        match acc.checked_add(step) {
            Some(a) => {
                acc = a;
            },
            None => {
                proof {
                    lemma_curve_cost_mono(curve@, i + 1, weight as int);
                }
                return Err(VotingError::ArithmeticOverflow);
            },
        }
        i += 1;
    }
    if weight > (n as u64) {
        proof {
            lemma_curve_cost_past_end(curve@, weight as int);
        }
        let last = curve[n - 1];
        let extra_units = weight - (n as u64);
        match extra_units.checked_mul(last) {
            Some(extra) => {
                match acc.checked_add(extra) {
                    Some(total) => Ok(total),
                    None => Err(VotingError::ArithmeticOverflow),
                }
            },
            None => {
                proof {
                    lemma_curve_cost_mono(curve@, 0, n as int);
                }
                Err(VotingError::ArithmeticOverflow)
            },
        }
    } else {
        Ok(acc)
    }
}

} // verus!
