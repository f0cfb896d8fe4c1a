//! Sentence segmentation and sliding context windows.
//!
//! Sentences come from a Unicode sentence-boundary pass; each is trimmed and
//! empty results are dropped. One window is built per sentence: its left and
//! right neighbours joined by spaces, the focal sentence wrapped in explicit
//! markers, and in QA mode a leading question line.

use vstd::prelude::*;
use vstd::string::StringExecFns;
use unicode_segmentation::UnicodeSegmentation;
use crate::strutil::{join_range, join_with, trim_str, trimmed_of};

verus! {

/// The sentence-shaped pieces that the Unicode sentence-boundary algorithm
/// cuts `s` into, before any trimming; left abstract because UAX #29 is not
/// restated here.
pub uninterp spec fn sentence_pieces_of(s: Seq<char>) -> Seq<Seq<char>>;

/// Relies on `unicode_segmentation::UnicodeSegmentation::unicode_sentences`:
/// the pieces depend on the characters alone.
#[verifier::external_body]
fn sentence_pieces(text: &str) -> (r: Vec<String>)
    ensures
        r.deep_view() == sentence_pieces_of(text@),
{
    text.unicode_sentences().map(|p| p.to_string()).collect()
}

/// The pieces of `pieces`, each trimmed, with empty results dropped.
pub open spec fn kept_sentences(pieces: Seq<Seq<char>>) -> Seq<Seq<char>>
    decreases pieces.len(),
{
    if pieces.len() == 0 {
        Seq::empty()
    } else {
        kept_sentences(pieces.drop_last()) + if trimmed_of(pieces.last()).len() > 0 {
            seq![trimmed_of(pieces.last())]
        } else {
            Seq::empty()
        }
    }
}

/// What `segment_sentences` returns for the text `s`.
pub open spec fn spec_segment_sentences(s: Seq<char>) -> Seq<Seq<char>> {
    kept_sentences(sentence_pieces_of(s))
}

/// Law: segmentation never yields an empty sentence.
pub proof fn lemma_kept_sentences_nonempty(pieces: Seq<Seq<char>>)
    ensures
        forall|j: int|
            0 <= j < kept_sentences(pieces).len() ==> kept_sentences(pieces)[j].len() > 0,
    decreases pieces.len(),
{
    if pieces.len() > 0 {
        lemma_kept_sentences_nonempty(pieces.drop_last());
        let prefix = kept_sentences(pieces.drop_last());
        assert forall|j: int|
            0 <= j < kept_sentences(pieces).len() implies kept_sentences(pieces)[j].len() > 0 by {
            if j < prefix.len() {
                assert(kept_sentences(pieces)[j] == prefix[j]);
            } else {
                assert(kept_sentences(pieces)[j] == trimmed_of(pieces.last()));
            }
        }
    }
}

/// Splits `text` into sentences on Unicode sentence boundaries, trims each,
/// and drops the ones that trim to nothing; no returned sentence is empty.
pub fn segment_sentences(text: &str) -> (r: Vec<String>)
    ensures
        r.deep_view() == spec_segment_sentences(text@),
        forall|j: int| 0 <= j < r.deep_view().len() ==> r.deep_view()[j].len() > 0,
{
    let pieces = sentence_pieces(text);
    let ghost all = pieces.deep_view();
    let mut out: Vec<String> = Vec::new();
    let mut i: usize = 0;
    while i < pieces.len()
        invariant
            0 <= i <= pieces@.len(),
            all == pieces.deep_view(),
            all.len() == pieces@.len(),
            out.deep_view() == kept_sentences(all.take(i as int)),
        decreases pieces@.len() - i,
    {
        let t = trim_str(pieces[i].as_str());
        let ghost before = out.deep_view();
        if !t.is_empty() {
            out.push(t.to_owned());
        }
        proof {
            assert(all.take(i + 1).drop_last() =~= all.take(i as int));
            assert(all.take(i + 1).last() == all[i as int]);
            if trimmed_of(all[i as int]).len() > 0 {
                assert(out.deep_view() =~= before + seq![trimmed_of(all[i as int])]);
            } else {
                assert(out.deep_view() =~= before);
            }
        }
        i = i + 1;
    }
    proof {
        assert(all.take(all.len() as int) =~= all);
        lemma_kept_sentences_nonempty(all);
    }
    out
}

/// Window configuration: how many sentences of left and right context each
/// window carries, and whether a question line is prepended.
pub struct SlidingWinCfg {
    pub left: usize,
    pub right: usize,
    pub qa_mode: bool,
}

/// The lines of the window for sentence `i`: an optional question line, the
/// left context, the marked focal sentence, and — only when some sentence
/// follows the focal one inside the window — the right context.
pub open spec fn window_lines(
    question: Option<Seq<char>>,
    sents: Seq<Seq<char>>,
    i: int,
    left: int,
    right: int,
    qa_mode: bool,
) -> Seq<Seq<char>> {
    let lo = if i >= left {
        i - left
    } else {
        0
    };
    let hi = if i + right + 1 <= sents.len() {
        i + right + 1
    } else {
        sents.len() as int
    };
    let head: Seq<Seq<char>> = if qa_mode && question is Some {
        seq!["Question: "@ + question->0]
    } else {
        Seq::empty()
    };
    let tail: Seq<Seq<char>> = if i + 1 < hi {
        seq!["ContextR: "@ + join_with(sents.subrange(i + 1, hi), " "@)]
    } else {
        Seq::empty()
    };
    head + seq![
        "ContextL: "@ + join_with(sents.subrange(lo, i), " "@),
        "<SOS> "@ + sents[i] + " <EOS>"@,
    ] + tail
}

/// The full text of the window for sentence `i`: its lines joined by
/// newlines.
pub open spec fn window_text(
    question: Option<Seq<char>>,
    sents: Seq<Seq<char>>,
    i: int,
    left: int,
    right: int,
    qa_mode: bool,
) -> Seq<char> {
    join_with(window_lines(question, sents, i, left, right, qa_mode), "\n"@)
}

/// Builds one context window per sentence, in sentence order.
pub fn sliding_windows(question: Option<&str>, sentences: &Vec<String>, cfg: SlidingWinCfg) -> (r:
    Vec<String>)
    ensures
        r.deep_view().len() == sentences@.len(),
        forall|i: int|
            0 <= i < sentences@.len() ==> r.deep_view()[i] == window_text(
                question.deep_view(),
                sentences.deep_view(),
                i,
                cfg.left as int,
                cfg.right as int,
                cfg.qa_mode,
            ),
{
    let ghost sents = sentences.deep_view();
    let n = sentences.len();
    let mut out: Vec<String> = Vec::new();
    let mut i: usize = 0;
    while i < n
        invariant
            0 <= i <= n == sentences@.len(),
            sents == sentences.deep_view(),
            sents.len() == n,
            out.deep_view().len() == i,
            forall|j: int|
                0 <= j < i ==> out.deep_view()[j] == window_text(
                    question.deep_view(),
                    sents,
                    j,
                    cfg.left as int,
                    cfg.right as int,
                    cfg.qa_mode,
                ),
        decreases n - i,
    {
        let lo = if i >= cfg.left {
            i - cfg.left
        } else {
            0
        };
        let rem = n - i - 1;
        let hi = if cfg.right <= rem {
            i + 1 + cfg.right
        } else {
            n
        };
        let mut parts: Vec<String> = Vec::new();
        if cfg.qa_mode {
            match question {
                Some(q) => {
                    let mut qline = String::from_str("Question: ");
                    qline.append(q);
                    parts.push(qline);
                },
                None => {},
            }
        }
        let mut lline = String::from_str("ContextL: ");
        let ljoin = join_range(sentences, lo, i, " ");
        lline.append(ljoin.as_str());
        parts.push(lline);
        let mut focal = String::from_str("<SOS> ");
        focal.append(sentences[i].as_str());
        focal.append(" <EOS>");
        parts.push(focal);
        if i + 1 < hi {
            let mut rline = String::from_str("ContextR: ");
            let rjoin = join_range(sentences, i + 1, hi, " ");
            rline.append(rjoin.as_str());
            parts.push(rline);
        }
        proof {
            assert(parts.deep_view() =~= window_lines(
                question.deep_view(),
                sents,
                i as int,
                cfg.left as int,
                cfg.right as int,
                cfg.qa_mode,
            ));
        }
        proof {
            assert(parts.deep_view().subrange(0, parts.deep_view().len() as int)
                =~= parts.deep_view());
        }
        let ghost before = out.deep_view();
        let whole = join_range(&parts, 0, parts.len(), "\n");
        out.push(whole);
        proof {
            assert(out.deep_view() =~= before.push(whole@));
        }
        i = i + 1;
    }
    out
}

} // verus!
