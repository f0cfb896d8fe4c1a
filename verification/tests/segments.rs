use veriscore_rs::segments::{segment_sentences, sliding_windows, SlidingWinCfg};

#[test]
fn segments_basic_unicode() {
    let txt = "Hello world.  Καλημέρα κόσμε!  你好。";
    let s = segment_sentences(txt);
    assert!(s.len() >= 3);
    assert_eq!(s[0], "Hello world.");
}

#[test]
fn segments_never_returns_empty_sentences() {
    let txt = "One.   \n\n  Two!  \t 三です。  ";
    let s = segment_sentences(txt);
    assert!(!s.is_empty());
    for sent in &s {
        assert!(!sent.is_empty());
        assert_eq!(sent, sent.trim());
    }
}

#[test]
fn segments_empty_text_gives_no_sentences() {
    let s = segment_sentences("");
    assert!(s.is_empty());
}

#[test]
fn windows_with_qa_and_margins() {
    let sentences = vec![
        "A quick intro.".to_string(),
        "The core claim appears here.".to_string(),
        "Follow-up details.".to_string(),
        "Final remark.".to_string(),
    ];
    let cfg = SlidingWinCfg { left: 1, right: 1, qa_mode: true };
    let wins = sliding_windows(Some("What is claimed?"), &sentences, cfg);
    assert_eq!(wins.len(), 4);
    let w1 = &wins[1];
    assert!(w1.contains("Question: What is claimed?"));
    assert!(w1.contains("ContextL: A quick intro."));
    assert!(w1.contains("<SOS> The core claim appears here. <EOS>"));
    assert!(w1.contains("ContextR: Follow-up details."));
}

#[test]
fn window_exact_text_at_edges() {
    let sentences = vec!["First.".to_string(), "Second.".to_string()];
    let cfg = SlidingWinCfg { left: 1, right: 1, qa_mode: false };
    let wins = sliding_windows(Some("ignored in non-qa mode"), &sentences, cfg);
    assert_eq!(wins.len(), 2);
    // First window: empty left context, right context present.
    assert_eq!(wins[0], "ContextL: \n<SOS> First. <EOS>\nContextR: Second.");
    // Last window: no sentence follows, so no right-context line at all.
    assert_eq!(wins[1], "ContextL: First.\n<SOS> Second. <EOS>");
}

#[test]
fn windows_without_question_in_qa_mode() {
    let sentences = vec!["Only one.".to_string()];
    let cfg = SlidingWinCfg { left: 2, right: 2, qa_mode: true };
    let wins = sliding_windows(None, &sentences, cfg);
    assert_eq!(wins.len(), 1);
    assert_eq!(wins[0], "ContextL: \n<SOS> Only one. <EOS>");
}
