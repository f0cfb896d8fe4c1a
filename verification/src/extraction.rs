//! Claim extraction: one prompt per context window, and the policy for
//! reading the model's answers back. Each answer is expected to be a JSON
//! array of claim strings; an answer that fails to parse contributes an
//! empty claim list rather than failing the record.

use vstd::prelude::*;
use vstd::string::StringExecFns;
use crate::segments::{
    segment_sentences, sliding_windows, spec_segment_sentences, window_text, SlidingWinCfg,
};
use crate::strutil::{trim_str, trimmed_of};
use crate::types::{ChatPrompt, ExtractedClaimsRecord, InputRecord};

verus! {

/// Left and right context breadth of an extraction window.
pub const EXTRACTION_LEFT: usize = 3;

pub const EXTRACTION_RIGHT: usize = 1;

/// The system instruction of every extraction prompt.
pub open spec fn extraction_system_text() -> Seq<char> {
    "You are an expert at extracting verifiable factual claims. Extract only verifiable claims; ignore unverifiable content (opinions, advice, fiction). Return a JSON array of strings."@
}

/// The user message of the extraction prompt for the window `win`.
pub open spec fn extraction_user_text(win: Seq<char>) -> Seq<char> {
    "Text window:\n"@ + win + "\n\nReturn JSON array of verifiable claims."@
}

/// The extraction windows for one input: its response segmented, one window
/// per sentence, with the question line present exactly when a question is.
pub open spec fn spec_extraction_windows(q: Option<Seq<char>>, response: Seq<char>) -> Seq<
    Seq<char>,
> {
    let sents = spec_segment_sentences(response);
    Seq::new(
        sents.len(),
        |i: int|
            window_text(q, sents, i, EXTRACTION_LEFT as int, EXTRACTION_RIGHT as int, q is Some),
    )
}

/// Segments the record's response and builds its extraction windows.
pub fn extract_windows(rec: &InputRecord) -> (r: Vec<String>)
    ensures
        r.deep_view() == spec_extraction_windows(rec.question.deep_view(), rec.response@),
{
    let sentences = segment_sentences(rec.response.as_str());
    let question: Option<&str> = match &rec.question {
        Some(q) => Some(q.as_str()),
        None => None,
    };
    let qa_mode = question.is_some();
    let cfg = SlidingWinCfg { left: EXTRACTION_LEFT, right: EXTRACTION_RIGHT, qa_mode };
    let wins = sliding_windows(question, &sentences, cfg);
    proof {
        assert(question.deep_view() == rec.question.deep_view());
        assert(wins.deep_view() =~= spec_extraction_windows(
            rec.question.deep_view(),
            rec.response@,
        ));
    }
    wins
}

/// Builds the extraction prompt for one window.
pub fn build_extraction_prompt(win: &str) -> (p: ChatPrompt)
    ensures
        p.system@ == extraction_system_text(),
        p.user@ == extraction_user_text(win@),
{
    let system = String::from_str(
        "You are an expert at extracting verifiable factual claims. Extract only verifiable claims; ignore unverifiable content (opinions, advice, fiction). Return a JSON array of strings.",
    );
    let mut user = String::from_str("Text window:\n");
    user.append(win);
    user.append("\n\nReturn JSON array of verifiable claims.");
    ChatPrompt { system, user }
}

/// The extraction prompts for one input, one per window, in window order.
pub fn extraction_prompts(rec: &InputRecord) -> (ps: Vec<ChatPrompt>)
    ensures
        ({
            let wins = spec_extraction_windows(rec.question.deep_view(), rec.response@);
            &&& ps@.len() == wins.len()
            &&& forall|i: int|
                #![trigger ps@[i]]
                0 <= i < wins.len() ==> ps@[i].system@ == extraction_system_text() && ps@[i].user@
                    == extraction_user_text(wins[i])
        }),
{
    let wins = extract_windows(rec);
    let mut ps: Vec<ChatPrompt> = Vec::new();
    let mut i: usize = 0;
    while i < wins.len()
        invariant
            0 <= i <= wins@.len(),
            wins.deep_view() == spec_extraction_windows(rec.question.deep_view(), rec.response@),
            wins.deep_view().len() == wins@.len(),
            ps@.len() == i,
            forall|j: int|
                #![trigger ps@[j]]
                0 <= j < i ==> ps@[j].system@ == extraction_system_text() && ps@[j].user@
                    == extraction_user_text(wins.deep_view()[j]),
        decreases wins@.len() - i,
    {
        let p = build_extraction_prompt(wins[i].as_str());
        proof {
            assert(wins@[i as int]@ == wins.deep_view()[i as int]);
        }
        let ghost ps_before = ps@;
        ps.push(p);
        proof {
            assert forall|j: int|
                0 <= j < i + 1 implies ps@[j].system@ == extraction_system_text() && ps@[j].user@
                == extraction_user_text(wins.deep_view()[j]) by {
                if j < i {
                    assert(ps@[j] == ps_before[j]);
                } else {
                    assert(ps@[j] == p);
                }
            }
        }
        i = i + 1;
    }
    ps
}

/// What parsing a completion as a JSON array of strings yields; left
/// abstract because the JSON grammar is not restated here.
pub uninterp spec fn json_claims_of(s: Seq<char>) -> Option<Seq<Seq<char>>>;

/// Relies on `serde_json::from_str::<Vec<String>>`: the outcome depends on
/// the characters alone.
#[verifier::external_body]
fn parse_claim_array(s: &str) -> (r: Option<Vec<String>>)
    ensures
        r.deep_view() == json_claims_of(s@),
{
    match serde_json::from_str::<Vec<String>>(s) {
        Ok(v) => Some(v),
        Err(_) => None,
    }
}

/// The claims one completion contributes: the completion is trimmed and read
/// as a JSON array of strings; anything malformed contributes nothing.
pub open spec fn claims_of_output(s: Seq<char>) -> Seq<Seq<char>> {
    match json_claims_of(trimmed_of(s)) {
        Some(cs) => cs,
        None => Seq::empty(),
    }
}

/// Turns the gateway's per-window completions into the extracted-claims
/// record: `claim_list[i]` holds window `i`'s claims and `all_claims` is
/// their flattening, in window order then within-window order.
pub fn extract_record(rec: &InputRecord, raw: &Vec<String>) -> (out: ExtractedClaimsRecord)
    ensures
        out.input == *rec,
        out.abstained == false,
        out.prompt_tok_cnt is None,
        out.response_tok_cnt is None,
        out.claim_list.deep_view().len() == raw@.len(),
        forall|j: int|
            0 <= j < raw@.len() ==> out.claim_list.deep_view()[j] == claims_of_output(
                raw.deep_view()[j],
            ),
        out.all_claims.deep_view() == out.claim_list.deep_view().flatten(),
        out.wf(),
{
    let mut claim_list: Vec<Vec<String>> = Vec::new();
    let mut all_claims: Vec<String> = Vec::new();
    let mut i: usize = 0;
    while i < raw.len()
        invariant
            0 <= i <= raw@.len(),
            claim_list.deep_view().len() == i,
            forall|j: int|
                0 <= j < i ==> claim_list.deep_view()[j] == claims_of_output(raw.deep_view()[j]),
            all_claims.deep_view() == claim_list.deep_view().flatten(),
        decreases raw@.len() - i,
    {
        let t = trim_str(raw[i].as_str());
        let claims: Vec<String> = match parse_claim_array(t) {
            Some(v) => v,
            None => Vec::new(),
        };
        proof {
            assert(claims.deep_view() =~= claims_of_output(raw.deep_view()[i as int]));
        }
        let ghost all_before = all_claims.deep_view();
        let mut j: usize = 0;
        while j < claims.len()
            invariant
                0 <= j <= claims@.len(),
                claims.deep_view().len() == claims@.len(),
                all_claims.deep_view() == all_before + claims.deep_view().take(j as int),
            decreases claims@.len() - j,
        {
            let ghost before = all_claims.deep_view();
            all_claims.push(claims[j].clone());
            proof {
                assert(all_claims.deep_view() =~= before.push(claims.deep_view()[j as int]));
                assert(all_before + claims.deep_view().take(j + 1) =~= (all_before
                    + claims.deep_view().take(j as int)).push(claims.deep_view()[j as int]));
            }
            j = j + 1;
        }
        let ghost list_before = claim_list.deep_view();
        claim_list.push(claims);
        proof {
            assert(claims.deep_view().take(claims.deep_view().len() as int)
                =~= claims.deep_view());
            assert(claim_list.deep_view() =~= list_before.push(claims.deep_view()));
            list_before.lemma_flatten_push(claims.deep_view());
        }
        i = i + 1;
    }
    ExtractedClaimsRecord {
        input: rec.clone(),
        prompt_tok_cnt: None,
        response_tok_cnt: None,
        abstained: false,
        claim_list,
        all_claims,
    }
}

/// Law: the flattening of grouped claim lists is exactly as long as the
/// groups together — `all_claims` never gains or loses a claim against
/// `claim_list`.
pub proof fn lemma_flatten_len(groups: Seq<Seq<Seq<char>>>)
    ensures
        groups.flatten().len() == grouped_len(groups),
    decreases groups.len(),
{
    if groups.len() == 0 {
        assert(groups.flatten().len() == 0);
    } else {
        lemma_flatten_len(groups.drop_last());
        groups.drop_last().lemma_flatten_push(groups.last());
        assert(groups.drop_last().push(groups.last()) =~= groups);
    }
}

/// The total number of claims across all groups.
pub open spec fn grouped_len(groups: Seq<Seq<Seq<char>>>) -> nat
    decreases groups.len(),
{
    if groups.len() == 0 {
        0
    } else {
        grouped_len(groups.drop_last()) + groups.last().len()
    }
}

} // verus!
