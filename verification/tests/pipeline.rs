use veriscore_rs::extraction::{build_extraction_prompt, extract_record, extraction_prompts};
use veriscore_rs::gateway::{assemble_in_order, evidence_from_serper, truncate_hits};
use veriscore_rs::retrieve::retrieve_for_record;
use veriscore_rs::reward::reward_batch;
use veriscore_rs::scoring::Ratio;
use veriscore_rs::types::{
    EvidenceItem, EvidenceRecord, ExtractedClaimsRecord, InputRecord, SerperItem,
    VerificationLabel,
};
use veriscore_rs::verification::{build_verify_prompt, label_for_output, verify_record};

fn as_f32(r: Ratio) -> f32 {
    r.num as f32 / r.den as f32
}

fn mk_input(question: Option<&str>, response: &str) -> InputRecord {
    InputRecord {
        question: question.map(|q| q.to_string()),
        response: response.to_string(),
        model: None,
        prompt_source: None,
    }
}

fn mk_item(tag: &str) -> EvidenceItem {
    EvidenceItem {
        title: format!("t{tag}"),
        snippet: format!("s{tag}"),
        link: format!("l{tag}"),
    }
}

#[test]
fn extract_flattens_and_groups() {
    let rec = mk_input(None, "A. B. C.");
    let raw = vec![
        r#"["Claim A1","Claim A2"]"#.to_string(),
        r#"[]"#.to_string(),
        r#"["Claim C1"]"#.to_string(),
    ];
    let out = extract_record(&rec, &raw);
    assert_eq!(out.claim_list.len(), 3);
    assert_eq!(out.all_claims, vec!["Claim A1", "Claim A2", "Claim C1"]);
    assert!(!out.abstained);
}

#[test]
fn extract_treats_malformed_output_as_empty() {
    let rec = mk_input(None, "A. B.");
    let raw = vec!["not json at all".to_string(), "  [\"kept\"] ".to_string()];
    let out = extract_record(&rec, &raw);
    assert_eq!(out.claim_list.len(), 2);
    assert!(out.claim_list[0].is_empty());
    assert_eq!(out.all_claims, vec!["kept"]);
}

#[test]
fn extraction_prompt_embeds_window() {
    let p = build_extraction_prompt("some window text");
    assert!(p.system.contains("verifiable factual claims"));
    assert_eq!(
        p.user,
        "Text window:\nsome window text\n\nReturn JSON array of verifiable claims."
    );
}

#[test]
fn extraction_prompts_one_per_sentence() {
    let rec = mk_input(Some("Q?"), "First fact. Second fact.");
    let ps = extraction_prompts(&rec);
    assert_eq!(ps.len(), 2);
    assert!(ps[0].user.contains("Question: Q?"));
    assert!(ps[0].user.contains("<SOS> First fact. <EOS>"));
    assert!(ps[1].user.contains("<SOS> Second fact. <EOS>"));
}

fn mk_extracted(claims: &[&str]) -> ExtractedClaimsRecord {
    ExtractedClaimsRecord {
        input: mk_input(None, "r"),
        prompt_tok_cnt: None,
        response_tok_cnt: None,
        abstained: false,
        claim_list: vec![claims.iter().map(|c| c.to_string()).collect()],
        all_claims: claims.iter().map(|c| c.to_string()).collect(),
    }
}

#[test]
fn retrieve_attaches_results_per_claim() {
    let rec = mk_extracted(&["c1", "c2"]);
    let outcomes = vec![
        ("c1".to_string(), Some(vec![mk_item("1"), mk_item("2")])),
        ("c2".to_string(), Some(vec![mk_item("1"), mk_item("2")])),
    ];
    let ev = retrieve_for_record(rec, &outcomes);
    assert_eq!(ev.claim_snippets_dict.len(), 2);
    assert_eq!(ev.claim_snippets_dict[0].1.len(), 2);
}

#[test]
fn retrieve_keeps_every_claim_when_all_searches_succeed() {
    // Outcomes arrive in completion order, not submission order; the
    // dictionary must still hold the same claims as a multiset.
    let rec = mk_extracted(&["a", "b", "c"]);
    let outcomes = vec![
        ("c".to_string(), Some(vec![mk_item("c")])),
        ("a".to_string(), Some(vec![mk_item("a")])),
        ("b".to_string(), Some(vec![mk_item("b")])),
    ];
    let ev = retrieve_for_record(rec, &outcomes);
    assert_eq!(ev.claim_snippets_dict.len(), 3);
    let mut got: Vec<String> = ev.claim_snippets_dict.iter().map(|e| e.0.clone()).collect();
    got.sort();
    assert_eq!(got, vec!["a", "b", "c"]);
    for (claim, items) in &ev.claim_snippets_dict {
        assert_eq!(items.len(), 1);
        assert_eq!(items[0].title, format!("t{claim}"));
    }
}

#[test]
fn retrieve_drops_failed_claims_silently() {
    let rec = mk_extracted(&["ok", "boom"]);
    let outcomes = vec![
        ("ok".to_string(), Some(vec![mk_item("1")])),
        ("boom".to_string(), None),
    ];
    let ev = retrieve_for_record(rec, &outcomes);
    assert_eq!(ev.claim_snippets_dict.len(), 1);
    assert_eq!(ev.claim_snippets_dict[0].0, "ok");
}

fn mk_evidence(labels: usize) -> EvidenceRecord {
    let dict = (0..labels)
        .map(|i| (format!("c{}", i + 1), vec![mk_item("")]))
        .collect();
    EvidenceRecord { claims: mk_extracted(&["c1", "c2", "c3"]), claim_snippets_dict: dict }
}

#[test]
fn verify_collapses_to_binary() {
    let rec = mk_evidence(3);
    let outs: Vec<String> = ["supported", "contradicted", "inconclusive"]
        .iter()
        .map(|l| format!(r#"{{"label":"{}"}}"#, l))
        .collect();
    let out = verify_record(rec, &outs);
    let labs: Vec<_> = out
        .claim_verification_result
        .iter()
        .map(|c| &c.verification_result)
        .collect();
    assert!(matches!(labs[0], VerificationLabel::Supported));
    assert!(matches!(labs[1], VerificationLabel::Unsupported));
    assert!(matches!(labs[2], VerificationLabel::Unsupported));
}

#[test]
fn malformed_judge_output_collapses_to_unsupported() {
    assert!(matches!(label_for_output("not json"), VerificationLabel::Unsupported));
    assert!(matches!(label_for_output(r#"{"verdict":"supported"}"#), VerificationLabel::Unsupported));
    assert!(matches!(label_for_output(r#"{"label":"Supported"}"#), VerificationLabel::Unsupported));
    assert!(matches!(label_for_output(r#"{"label":"supported"}"#), VerificationLabel::Supported));
}

#[test]
fn verify_prompt_renders_evidence_lines() {
    let hits = vec![mk_item("1"), mk_item("2")];
    let p = build_verify_prompt("the claim", &hits, true);
    assert!(p.system.contains("meticulous fact checker"));
    assert_eq!(
        p.user,
        "Claim:\nthe claim\n\nEvidence:\n- t1 [l1]\ns1\n- t2 [l2]\ns2\n\n\
         Return JSON: {\"label\": \"supported\" | \"unsupported\", \"rationale\": \"...\"}"
    );
    let p3 = build_verify_prompt("the claim", &hits, false);
    assert!(p3.user.contains("\"contradicted\" | \"inconclusive\""));
}

fn mk_single_supported_record() -> Option<veriscore_rs::types::VerificationRecord> {
    let extracted = mk_extracted(&["only claim"]);
    let outcomes = vec![("only claim".to_string(), Some(vec![mk_item("1")]))];
    let ev = retrieve_for_record(extracted, &outcomes);
    let outs = vec![r#"{"label":"supported"}"#.to_string()];
    Some(verify_record(ev, &outs))
}

#[test]
fn reward_batch_scores_in_input_order() {
    // Two completions, each with exactly one supported claim, K = 4:
    // precision 1.0, recall 0.25, f1 = 0.4 for both, in input order.
    let outcomes = vec![mk_single_supported_record(), mk_single_supported_record()];
    let rewards = reward_batch(&outcomes, 4);
    assert_eq!(rewards.len(), 2);
    for r in &rewards {
        let v = as_f32(*r);
        assert!(v > 0.39 && v < 0.41);
    }
}

#[test]
fn reward_batch_isolates_failed_items() {
    // The failing item earns the neutral zero; its sibling keeps its score.
    let outcomes = vec![None, mk_single_supported_record()];
    let rewards = reward_batch(&outcomes, 4);
    assert_eq!(rewards.len(), 2);
    assert_eq!(as_f32(rewards[0]), 0.0);
    let v = as_f32(rewards[1]);
    assert!(v > 0.39 && v < 0.41);
}

#[test]
fn assemble_restores_request_order() {
    let pairs = vec![
        (2usize, "third".to_string()),
        (0usize, "first".to_string()),
        (1usize, "second".to_string()),
    ];
    let r = assemble_in_order(3, &pairs);
    assert_eq!(r, vec!["first", "second", "third"]);
}

#[test]
fn truncate_keeps_top_k_hits() {
    let mut hits: Vec<SerperItem> = (0..5)
        .map(|i| SerperItem {
            title: format!("t{i}"),
            link: format!("l{i}"),
            snippet: format!("s{i}"),
        })
        .collect();
    truncate_hits(&mut hits, 3);
    assert_eq!(hits.len(), 3);
    assert_eq!(hits[0].title, "t0");
    assert_eq!(hits[2].title, "t2");
    let mut short: Vec<SerperItem> = vec![SerperItem {
        title: "t".into(),
        link: "l".into(),
        snippet: "s".into(),
    }];
    truncate_hits(&mut short, 10);
    assert_eq!(short.len(), 1);
}

#[test]
fn serper_hits_become_evidence_field_for_field() {
    let hits = vec![SerperItem { title: "T".into(), link: "L".into(), snippet: "S".into() }];
    let ev = evidence_from_serper(&hits);
    assert_eq!(ev.len(), 1);
    assert_eq!(ev[0].title, "T");
    assert_eq!(ev[0].link, "L");
    assert_eq!(ev[0].snippet, "S");
}
