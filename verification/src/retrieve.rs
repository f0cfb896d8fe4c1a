//! Evidence retrieval bookkeeping. The searches themselves run outside, one
//! per claim and in no promised order; this module turns their outcomes into
//! the evidence record, silently dropping every claim whose search failed.

use vstd::prelude::*;
use crate::types::{EvidenceItem, EvidenceRecord, ExtractedClaimsRecord};

verus! {

/// One claim's search outcome: the claim text and, when the search
/// succeeded, the evidence found for it.
pub type SearchOutcome = (String, Option<Vec<EvidenceItem>>);

/// The dictionary entries the outcomes yield, in outcome order: claims with
/// a successful search keep their evidence, failed ones leave no entry.
pub open spec fn kept_evidence(os: Seq<SearchOutcome>) -> Seq<(String, Seq<EvidenceItem>)>
    decreases os.len(),
{
    if os.len() == 0 {
        Seq::empty()
    } else {
        kept_evidence(os.drop_last()) + match os.last().1 {
            Some(items) => seq![(os.last().0, items@)],
            None => Seq::empty(),
        }
    }
}

/// An evidence dictionary, entry by entry, with each evidence list viewed
/// as the sequence of its items.
pub open spec fn dict_entries(d: Seq<(String, Vec<EvidenceItem>)>) -> Seq<
    (String, Seq<EvidenceItem>),
> {
    d.map_values(|e: (String, Vec<EvidenceItem>)| (e.0, e.1@))
}

/// Attaches the search outcomes to the extracted claims: the evidence
/// dictionary holds exactly the claims whose search succeeded, each with
/// the evidence returned for it, in the order the outcomes arrived.
pub fn retrieve_for_record(extracted: ExtractedClaimsRecord, outcomes: &Vec<SearchOutcome>) -> (ev:
    EvidenceRecord)
    ensures
        ev.claims == extracted,
        dict_entries(ev.claim_snippets_dict@) == kept_evidence(outcomes@),
{
    let mut dict: Vec<(String, Vec<EvidenceItem>)> = Vec::new();
    let mut i: usize = 0;
    while i < outcomes.len()
        invariant
            0 <= i <= outcomes@.len(),
            dict_entries(dict@) == kept_evidence(outcomes@.take(i as int)),
        decreases outcomes@.len() - i,
    {
        let ghost before = dict@;
        match &outcomes[i] {
            (claim, Some(items)) => {
                let kept_items = clone_evidence(items);
                dict.push((claim.clone(), kept_items));
            },
            (_, None) => {},
        }
        proof {
            assert(outcomes@.take(i + 1).drop_last() =~= outcomes@.take(i as int));
            assert(outcomes@.take(i + 1).last() == outcomes@[i as int]);
            match outcomes@[i as int].1 {
                Some(items) => {
                    assert(dict_entries(dict@) =~= dict_entries(before) + seq![
                        (outcomes@[i as int].0, items@),
                    ]);
                },
                None => {},
            }
        }
        i = i + 1;
    }
    proof {
        assert(outcomes@.take(outcomes@.len() as int) =~= outcomes@);
    }
    EvidenceRecord { claims: extracted, claim_snippets_dict: dict }
}

/// Clones an evidence list, keeping its exact items.
pub fn clone_evidence(items: &Vec<EvidenceItem>) -> (r: Vec<EvidenceItem>)
    ensures
        r@ == items@,
{
    let r = items.clone();
    proof {
        assert(r@ =~= items@);
    }
    r
}

/// Law: when every search succeeds, no claim is dropped — the dictionary
/// has one entry per outcome, pairing each claim with exactly the evidence
/// its search returned, in outcome order.
pub proof fn lemma_retrieval_complete(os: Seq<SearchOutcome>)
    requires
        forall|i: int| 0 <= i < os.len() ==> (#[trigger] os[i]).1 is Some,
    ensures
        kept_evidence(os).len() == os.len(),
        forall|i: int|
            0 <= i < os.len() ==> #[trigger] kept_evidence(os)[i] == (os[i].0, os[i].1->0@),
    decreases os.len(),
{
    if os.len() > 0 {
        lemma_retrieval_complete(os.drop_last());
        assert forall|i: int|
            0 <= i < os.len() implies #[trigger] kept_evidence(os)[i] == (os[i].0, os[i].1->0@) by {
            if i < os.len() - 1 {
                assert(kept_evidence(os)[i] == kept_evidence(os.drop_last())[i]);
                assert(os.drop_last()[i] == os[i]);
            } else {
                assert(kept_evidence(os)[i] == (os.last().0, os.last().1->0@));
            }
        }
    }
}

} // verus!
