//! Claim verification: one judge prompt per evidence-dictionary entry, and
//! the label-collapse policy for reading the judge's answers back. Only a
//! well-formed JSON object whose `label` field is exactly `supported` counts
//! as supported; every other answer, malformed ones included, collapses to
//! `Unsupported`.

use vstd::prelude::*;
use vstd::string::StringExecFns;
use crate::strutil::{join_range, join_with};
use crate::types::{
    ChatPrompt, ClaimVerification, EvidenceItem, EvidenceRecord, VerificationLabel,
    VerificationRecord,
};

verus! {

/// The system instruction of every verification prompt.
pub open spec fn verify_system_text() -> Seq<char> {
    "You are a meticulous fact checker. Judge the claim ONLY using the provided web snippets."@
}

/// The label instruction: a two-way label set in binary mode, a three-way
/// one otherwise.
pub open spec fn verify_label_desc(binary: bool) -> Seq<char> {
    if binary {
        "Return JSON: {\"label\": \"supported\" | \"unsupported\", \"rationale\": \"...\"}"@
    } else {
        "Return JSON: {\"label\": \"supported\" | \"contradicted\" | \"inconclusive\", \"rationale\": \"...\"}"@
    }
}

/// One evidence item as the judge sees it: title, bracketed link, and the
/// snippet on its own line.
pub open spec fn evidence_line(e: EvidenceItem) -> Seq<char> {
    "- "@ + e.title@ + " ["@ + e.link@ + "]\n"@ + e.snippet@
}

/// The whole evidence block: one line per item, joined by newlines.
pub open spec fn rendered_evidence(hits: Seq<EvidenceItem>) -> Seq<char> {
    join_with(hits.map_values(|e: EvidenceItem| evidence_line(e)), "\n"@)
}

/// The user message of the verification prompt for one claim.
pub open spec fn verify_user_text(claim: Seq<char>, hits: Seq<EvidenceItem>, binary: bool) -> Seq<
    char,
> {
    "Claim:\n"@ + claim + "\n\nEvidence:\n"@ + rendered_evidence(hits) + "\n\n"@
        + verify_label_desc(binary)
}

/// Builds the verification prompt for one claim and its evidence.
pub fn build_verify_prompt(claim: &str, hits: &Vec<EvidenceItem>, binary: bool) -> (p: ChatPrompt)
    ensures
        p.system@ == verify_system_text(),
        p.user@ == verify_user_text(claim@, hits@, binary),
{
    let mut lines: Vec<String> = Vec::new();
    let mut i: usize = 0;
    while i < hits.len()
        invariant
            0 <= i <= hits@.len(),
            lines.deep_view() =~= hits@.take(i as int).map_values(
                |e: EvidenceItem| evidence_line(e),
            ),
        decreases hits@.len() - i,
    {
        let mut line = String::from_str("- ");
        line.append(hits[i].title.as_str());
        line.append(" [");
        line.append(hits[i].link.as_str());
        line.append("]\n");
        line.append(hits[i].snippet.as_str());
        let ghost before = lines.deep_view();
        lines.push(line);
        proof {
            assert(lines.deep_view() =~= before.push(line@));
            assert(hits@.take(i + 1).map_values(|e: EvidenceItem| evidence_line(e)) =~= hits@.take(
                i as int,
            ).map_values(|e: EvidenceItem| evidence_line(e)).push(evidence_line(hits@[i as int])));
        }
        i = i + 1;
    }
    proof {
        assert(hits@.take(hits@.len() as int) =~= hits@);
        assert(lines.deep_view().subrange(0, lines.deep_view().len() as int)
            =~= lines.deep_view());
    }
    let evidence = join_range(&lines, 0, lines.len(), "\n");
    let system = String::from_str(
        "You are a meticulous fact checker. Judge the claim ONLY using the provided web snippets.",
    );
    let mut user = String::from_str("Claim:\n");
    user.append(claim);
    user.append("\n\nEvidence:\n");
    user.append(evidence.as_str());
    user.append("\n\n");
    if binary {
        user.append("Return JSON: {\"label\": \"supported\" | \"unsupported\", \"rationale\": \"...\"}");
    } else {
        user.append(
            "Return JSON: {\"label\": \"supported\" | \"contradicted\" | \"inconclusive\", \"rationale\": \"...\"}",
        );
    }
    ChatPrompt { system, user }
}

/// The verification prompts for one evidence record, one per dictionary
/// entry, in dictionary order.
pub fn verify_prompts(ev: &EvidenceRecord, binary: bool) -> (ps: Vec<ChatPrompt>)
    ensures
        ps@.len() == ev.claim_snippets_dict@.len(),
        forall|i: int|
            #![trigger ps@[i]]
            0 <= i < ps@.len() ==> ps@[i].system@ == verify_system_text() && ps@[i].user@
                == verify_user_text(
                ev.claim_snippets_dict@[i].0@,
                ev.claim_snippets_dict@[i].1@,
                binary,
            ),
{
    let dict = &ev.claim_snippets_dict;
    let mut ps: Vec<ChatPrompt> = Vec::new();
    let mut i: usize = 0;
    while i < dict.len()
        invariant
            0 <= i <= dict@.len(),
            ps@.len() == i,
            forall|j: int|
                #![trigger ps@[j]]
                0 <= j < i ==> ps@[j].system@ == verify_system_text() && ps@[j].user@
                    == verify_user_text(dict@[j].0@, dict@[j].1@, binary),
        decreases dict@.len() - i,
    {
        let entry = &dict[i];
        let p = build_verify_prompt(entry.0.as_str(), &entry.1, binary);
        let ghost ps_before = ps@;
        ps.push(p);
        proof {
            assert forall|j: int|
                0 <= j < i + 1 implies (#[trigger] ps@[j]).system@ == verify_system_text()
                && ps@[j].user@ == verify_user_text(dict@[j].0@, dict@[j].1@, binary) by {
                if j < i {
                    assert(ps@[j] == ps_before[j]);
                } else {
                    assert(ps@[j] == p);
                }
            }
        }
        i = i + 1;
    }
    ps
}

/// The `label` field of a completion parsed as a JSON object, when both the
/// parse and the field lookup succeed; left abstract because the JSON
/// grammar is not restated here.
pub uninterp spec fn json_label_of(s: Seq<char>) -> Option<Seq<char>>;

/// Relies on `serde_json::from_str::<serde_json::Value>`, with
/// `Value::get("label")` and `Value::as_str` picking the field out: the
/// outcome depends on the characters alone.
#[verifier::external_body]
fn parse_label_field(s: &str) -> (r: Option<String>)
    ensures
        r.deep_view() == json_label_of(s@),
{
    let v: serde_json::Value = match serde_json::from_str(s) {
        Ok(v) => v,
        Err(_) => return None,
    };
    match v.get("label").and_then(|l| l.as_str()) {
        Some(l) => Some(l.to_string()),
        None => None,
    }
}

/// The collapse policy: only a parsed `label` of exactly `supported` maps
/// to `Supported`; a missing field, a parse failure, and every other label
/// map to `Unsupported`.
pub open spec fn collapse_label(s: Seq<char>) -> VerificationLabel {
    if json_label_of(s) == Some("supported"@) {
        VerificationLabel::Supported
    } else {
        VerificationLabel::Unsupported
    }
}

/// Reads one judge completion and collapses it to the binary verdict.
pub fn label_for_output(out: &str) -> (l: VerificationLabel)
    ensures
        l == collapse_label(out@),
{
    match parse_label_field(out) {
        Some(lab) => {
            let supported = String::from_str("supported");
            if lab == supported {
                VerificationLabel::Supported
            } else {
                VerificationLabel::Unsupported
            }
        },
        None => VerificationLabel::Unsupported,
    }
}

/// Zips the judge's completions back onto the evidence dictionary, in
/// dictionary order, collapsing each completion to its verdict.
pub fn verify_record(ev: EvidenceRecord, outs: &Vec<String>) -> (vr: VerificationRecord)
    requires
        outs@.len() == ev.claim_snippets_dict@.len(),
    ensures
        vr.evidence == ev,
        vr.claim_verification_result@.len() == outs@.len(),
        forall|i: int|
            #![trigger vr.claim_verification_result@[i]]
            0 <= i < outs@.len() ==> vr.claim_verification_result@[i].claim
                == ev.claim_snippets_dict@[i].0 && vr.claim_verification_result@[i].search_results@
                == ev.claim_snippets_dict@[i].1@ && vr.claim_verification_result@[i].verification_result
                == collapse_label(outs.deep_view()[i]),
{
    let dict = &ev.claim_snippets_dict;
    let mut results: Vec<ClaimVerification> = Vec::new();
    let mut i: usize = 0;
    while i < outs.len()
        invariant
            0 <= i <= outs@.len() == dict@.len(),
            results@.len() == i,
            forall|j: int|
                #![trigger results@[j]]
                0 <= j < i ==> results@[j].claim == dict@[j].0 && results@[j].search_results@
                    == dict@[j].1@ && results@[j].verification_result == collapse_label(
                    outs.deep_view()[j],
                ),
        decreases outs@.len() - i,
    {
        let entry = &dict[i];
        let cv = ClaimVerification {
            claim: entry.0.clone(),
            search_results: crate::retrieve::clone_evidence(&entry.1),
            verification_result: label_for_output(outs[i].as_str()),
        };
        let ghost before = results@;
        results.push(cv);
        proof {
            assert forall|j: int|
                0 <= j < i + 1 implies (#[trigger] results@[j]).claim == dict@[j].0
                && results@[j].search_results@ == dict@[j].1@
                && results@[j].verification_result == collapse_label(outs.deep_view()[j]) by {
                if j < i {
                    assert(results@[j] == before[j]);
                } else {
                    assert(results@[j] == cv);
                    assert(outs@[j]@ == outs.deep_view()[j]);
                }
            }
        }
        i = i + 1;
    }
    VerificationRecord { evidence: ev, claim_verification_result: results }
}

} // verus!
