//! Scoring: turns one item's verification record into exact
//! precision/recall/F1 ratios against a target claim count K.

use vstd::prelude::*;
use crate::types::{ClaimVerification, VerificationLabel, VerificationRecord};

verus! {

/// An exact non-negative rational. Scores are ratios of small counts, so the
/// value is kept as numerator and denominator rather than rounded to a float;
/// the surrounding application divides at the very edge.
#[derive(PartialEq, Eq, Structural, Clone, Copy, Debug)]
pub struct Ratio {
    pub num: u128,
    pub den: u128,
}

impl Ratio {
    /// A well-formed ratio never divides by zero.
    pub open spec fn wf(self) -> bool {
        self.den > 0
    }

    /// Zero.
    pub open spec fn spec_zero() -> Ratio {
        Ratio { num: 0, den: 1 }
    }

    /// The represented value is at most 1.
    pub open spec fn at_most_one(self) -> bool {
        self.num <= self.den
    }
}

/// Scoring configuration: the target claim count and whether an abstaining
/// extraction is scored as zero.
pub struct ScoreConf {
    pub k: usize,
    pub abstentions_zero: bool,
}

/// Precision, recall and F1 for one response, with the underlying counts.
pub struct PerResponseScore {
    pub supported: usize,
    pub total: usize,
    pub precision: Ratio,
    pub recall: Ratio,
    pub f1: Ratio,
}

/// How many of the verdicts in `rs` are `Supported`.
pub open spec fn count_supported(rs: Seq<ClaimVerification>) -> nat
    decreases rs.len(),
{
    if rs.len() == 0 {
        0
    } else {
        count_supported(rs.drop_last()) + if rs.last().verification_result
            is Supported {
            1nat
        } else {
            0nat
        }
    }
}

/// The scoring denominator: the number of verdicts, floored at 1 so that a
/// claim-less response divides cleanly.
pub open spec fn total_of(rs: Seq<ClaimVerification>) -> nat {
    if rs.len() == 0 {
        1
    } else {
        rs.len()
    }
}

/// `precision = supported / total`.
pub open spec fn precision_ratio(supported: nat, total: nat) -> Ratio {
    Ratio { num: supported as u128, den: total as u128 }
}

/// `recall = min(1, supported / k)`.
pub open spec fn recall_ratio(supported: nat, k: nat) -> Ratio {
    if supported >= k {
        Ratio { num: 1, den: 1 }
    } else {
        Ratio { num: supported as u128, den: k as u128 }
    }
}

/// `f1 = 0` when `precision + recall == 0`, else the harmonic mean
/// `2 * precision * recall / (precision + recall)`, written in closed form
/// for each branch of the recall clamp.
pub open spec fn f1_ratio(supported: nat, total: nat, k: nat) -> Ratio {
    if supported == 0 {
        Ratio::spec_zero()
    } else if supported >= k {
        Ratio { num: (2 * supported) as u128, den: (supported + total) as u128 }
    } else {
        Ratio { num: (2 * supported) as u128, den: (total + k) as u128 }
    }
}

/// Scores one verification record against the target claim count `k`:
/// `total` is the number of verdicts, floored at 1; `precision`, `recall`
/// and `f1` follow the exact formulas above.
pub fn score_response(vr: &VerificationRecord, k: usize) -> (s: PerResponseScore)
    requires
        k >= 1,
    ensures
        s.supported == count_supported(vr.claim_verification_result@),
        s.total == total_of(vr.claim_verification_result@),
        s.supported <= s.total,
        s.precision == precision_ratio(s.supported as nat, s.total as nat),
        s.recall == recall_ratio(s.supported as nat, k as nat),
        s.f1 == f1_ratio(s.supported as nat, s.total as nat, k as nat),
{
    let rs = &vr.claim_verification_result;
    let mut supported: usize = 0;
    let mut i: usize = 0;
    while i < rs.len()
        invariant
            0 <= i <= rs@.len(),
            supported == count_supported(rs@.take(i as int)),
            supported <= i,
        decreases rs@.len() - i,
    {
        proof {
            assert(rs@.take(i + 1).drop_last() =~= rs@.take(i as int));
            assert(rs@.take(i + 1).last() == rs@[i as int]);
        }
        match rs[i].verification_result {
            VerificationLabel::Supported => {
                supported = supported + 1;
            },
            VerificationLabel::Unsupported => {},
        }
        i = i + 1;
    }
    proof {
        assert(rs@.take(rs@.len() as int) =~= rs@);
    }
    let total: usize = if rs.len() == 0 {
        1
    } else {
        rs.len()
    };
    let precision = Ratio { num: supported as u128, den: total as u128 };
    let recall = if supported >= k {
        Ratio { num: 1, den: 1 }
    } else {
        Ratio { num: supported as u128, den: k as u128 }
    };
    let f1 = if supported == 0 {
        Ratio { num: 0, den: 1 }
    } else if supported >= k {
        Ratio { num: 2 * (supported as u128), den: (supported as u128) + (total as u128) }
    } else {
        Ratio { num: 2 * (supported as u128), den: (total as u128) + (k as u128) }
    };
    PerResponseScore { supported, total, precision, recall, f1 }
}

/// Law: the produced F1 is exactly the harmonic mean of precision and
/// recall — as rational values, `f1 * (p + r) == 2 * p * r` — and it is
/// zero exactly when `precision + recall` is zero.
pub proof fn lemma_f1_harmonic_mean(supported: usize, total: usize, k: usize)
    requires
        total >= 1,
        k >= 1,
        supported <= total,
    ensures
        ({
            let p = precision_ratio(supported as nat, total as nat);
            let r = recall_ratio(supported as nat, k as nat);
            let f = f1_ratio(supported as nat, total as nat, k as nat);
            &&& f.num * (p.num * r.den + r.num * p.den) == 2 * p.num * r.num * f.den
            &&& (p.num * r.den + r.num * p.den == 0 <==> f.num == 0)
        }),
{
    let s = supported as int;
    let t = total as int;
    let kk = k as int;
    let p = precision_ratio(supported as nat, total as nat);
    let r = recall_ratio(supported as nat, k as nat);
    let f = f1_ratio(supported as nat, total as nat, k as nat);
    assert(p.num == s && p.den == t);
    if supported == 0 {
        assert(r.num == 0);
        assert(f.num * (p.num * r.den + r.num * p.den) == 2 * p.num * r.num * f.den
            && p.num * r.den + r.num * p.den == 0) by (nonlinear_arith)
            requires
                f.num == 0,
                p.num == 0,
                r.num == 0,
        ;
    } else if supported >= k {
        assert(r.num == 1 && r.den == 1 && f.num == 2 * s && f.den == s + t);
        assert(f.num * (p.num * r.den + r.num * p.den) == 2 * p.num * r.num * f.den)
            by (nonlinear_arith)
            requires
                p.num == s && p.den == t && r.num == 1 && r.den == 1 && f.num == 2 * s
                    && f.den == s + t,
        ;
        assert(p.num * r.den + r.num * p.den > 0) by (nonlinear_arith)
            requires
                r.num == 1 && p.den == t && t >= 1 && p.num == s && r.den == 1 && s >= 0,
        ;
    } else {
        assert(r.num == s && r.den == kk && f.num == 2 * s && f.den == t + kk);
        assert(f.num * (p.num * r.den + r.num * p.den) == 2 * p.num * r.num * f.den)
            by (nonlinear_arith)
            requires
                p.num == s && p.den == t && r.num == s && r.den == kk && f.num == 2 * s
                    && f.den == t + kk,
        ;
        assert(p.num * r.den + r.num * p.den > 0) by (nonlinear_arith)
            requires
                p.num == s && r.den == kk && kk >= 1 && s >= 1 && r.num == s && p.den == t
                    && t >= 1,
        ;
    }
}

/// Law: precision, recall and F1 never exceed 1, and all three are
/// well-formed ratios.
pub proof fn lemma_score_bounds(supported: usize, total: usize, k: usize)
    requires
        total >= 1,
        k >= 1,
        supported <= total,
    ensures
        precision_ratio(supported as nat, total as nat).wf(),
        precision_ratio(supported as nat, total as nat).at_most_one(),
        recall_ratio(supported as nat, k as nat).wf(),
        recall_ratio(supported as nat, k as nat).at_most_one(),
        f1_ratio(supported as nat, total as nat, k as nat).wf(),
        f1_ratio(supported as nat, total as nat, k as nat).at_most_one(),
{
}

} // verus!

