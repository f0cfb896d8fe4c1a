//! The records that flow through the pipeline, one stage to the next:
//! input -> extracted claims -> evidence -> verification.

use vstd::prelude::*;

verus! {

/// One chat request to the judge or extractor model: a system instruction
/// and a user message. The surrounding application turns it into the wire
/// format of whichever chat backend it talks to.
pub struct ChatPrompt {
    pub system: String,
    pub user: String,
}

/// One batch item: the text to judge, and the question that produced it.
/// A present `question` switches the pipeline into QA mode.
pub struct InputRecord {
    pub question: Option<String>,
    pub response: String,
    pub model: Option<String>,
    pub prompt_source: Option<String>,
}

/// Output of the extraction stage. `claim_list[i]` holds the claims mined
/// from window `i`; `all_claims` is their flattening in window order.
pub struct ExtractedClaimsRecord {
    pub input: InputRecord,
    pub prompt_tok_cnt: Option<u32>,
    pub response_tok_cnt: Option<u32>,
    pub abstained: bool,
    pub claim_list: Vec<Vec<String>>,
    pub all_claims: Vec<String>,
}

impl ExtractedClaimsRecord {
    /// The record's invariant: `all_claims` is exactly the flattening of
    /// `claim_list`, so no claim is gained or lost between the grouped and
    /// the flat form.
    pub open spec fn wf(self) -> bool {
        self.all_claims.deep_view() == self.claim_list.deep_view().flatten()
    }
}

/// One web search hit.
pub struct EvidenceItem {
    pub title: String,
    pub snippet: String,
    pub link: String,
}

/// One search hit as the search backend reports it, before it is adopted
/// as evidence.
pub struct SerperItem {
    pub title: String,
    pub link: String,
    pub snippet: String,
}

/// Output of the retrieval stage. `claim_snippets_dict` pairs each claim
/// whose search succeeded with the evidence found for it; claims whose
/// search failed carry no entry at all.
pub struct EvidenceRecord {
    pub claims: ExtractedClaimsRecord,
    pub claim_snippets_dict: Vec<(String, Vec<EvidenceItem>)>,
}

/// The binary verdict on one claim. Every non-supported judge output,
/// malformed ones included, collapses to `Unsupported`.
#[derive(PartialEq, Eq, Structural, Clone, Copy, Debug)]
pub enum VerificationLabel {
    Supported,
    Unsupported,
}

/// One claim together with the evidence it was judged against and the verdict.
pub struct ClaimVerification {
    pub claim: String,
    pub search_results: Vec<EvidenceItem>,
    pub verification_result: VerificationLabel,
}

/// Terminal record of one item's pipeline run.
pub struct VerificationRecord {
    pub evidence: EvidenceRecord,
    pub claim_verification_result: Vec<ClaimVerification>,
}

impl Clone for EvidenceItem {
    fn clone(&self) -> (r: Self)
        ensures
            r == *self,
    {
        EvidenceItem {
            title: self.title.clone(),
            snippet: self.snippet.clone(),
            link: self.link.clone(),
        }
    }
}

impl Clone for SerperItem {
    fn clone(&self) -> (r: Self)
        ensures
            r == *self,
    {
        SerperItem {
            title: self.title.clone(),
            link: self.link.clone(),
            snippet: self.snippet.clone(),
        }
    }
}

impl Clone for InputRecord {
    fn clone(&self) -> (r: Self)
        ensures
            r == *self,
    {
        InputRecord {
            question: clone_opt_string(&self.question),
            response: self.response.clone(),
            model: clone_opt_string(&self.model),
            prompt_source: clone_opt_string(&self.prompt_source),
        }
    }
}

/// Clones an optional string, keeping its exact value.
pub fn clone_opt_string(s: &Option<String>) -> (r: Option<String>)
    ensures
        r == *s,
{
    match s {
        Some(v) => Some(v.clone()),
        None => None,
    }
}

} // verus!
