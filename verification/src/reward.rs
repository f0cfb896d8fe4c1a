//! The batch reward rule: one reward per batch item, in input order. An
//! item whose pipeline failed anywhere contributes the neutral fallback of
//! zero and never disturbs its siblings.

use vstd::prelude::*;
use crate::scoring::{count_supported, f1_ratio, score_response, total_of, Ratio};
use crate::types::VerificationRecord;

verus! {

/// The reward one item earns: the F1 of its verification record, or zero
/// when its pipeline produced no record.
pub open spec fn item_reward(o: Option<VerificationRecord>, k: nat) -> Ratio {
    match o {
        Some(vr) => f1_ratio(
            count_supported(vr.claim_verification_result@),
            total_of(vr.claim_verification_result@),
            k,
        ),
        None => Ratio::spec_zero(),
    }
}

/// Scores a whole batch: same length and order as the outcomes, a real
/// score wherever a record was produced, and the neutral zero wherever the
/// item's pipeline failed — a failed item never affects another's reward.
pub fn reward_batch(outcomes: &Vec<Option<VerificationRecord>>, k: usize) -> (rs: Vec<Ratio>)
    requires
        k >= 1,
    ensures
        rs@.len() == outcomes@.len(),
        forall|i: int|
            0 <= i < outcomes@.len() ==> (#[trigger] rs@[i]) == item_reward(
                outcomes@[i],
                k as nat,
            ),
{
    let mut rs: Vec<Ratio> = Vec::new();
    let mut i: usize = 0;
    while i < outcomes.len()
        invariant
            k >= 1,
            0 <= i <= outcomes@.len(),
            rs@.len() == i,
            forall|j: int|
                0 <= j < i ==> (#[trigger] rs@[j]) == item_reward(outcomes@[j], k as nat),
        decreases outcomes@.len() - i,
    {
        match &outcomes[i] {
            Some(vr) => {
                let s = score_response(vr, k);
                rs.push(s.f1);
            },
            None => {
                rs.push(Ratio { num: 0, den: 1 });
            },
        }
        i = i + 1;
    }
    rs
}

} // verus!
