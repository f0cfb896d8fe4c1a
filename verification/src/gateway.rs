//! Gateway-side guarantees that are pure bookkeeping: restoring request
//! order over completions that arrive in any order, truncating search hits
//! to the configured top-K, and adopting raw search hits as evidence.

use vstd::prelude::*;
use crate::types::{EvidenceItem, SerperItem};

verus! {

/// Restores request order over completions that arrived in completion
/// order. Each pair carries the index its request was submitted under;
/// the result holds each completion at its request index, which is the
/// order-preservation promise of the chat gateway.
pub fn assemble_in_order(n: usize, pairs: &Vec<(usize, String)>) -> (r: Vec<String>)
    requires
        pairs@.len() == n,
        forall|i: int| 0 <= i < n ==> (#[trigger] pairs@[i]).0 < n,
        forall|i: int, j: int| 0 <= i < j < n ==> pairs@[i].0 != pairs@[j].0,
    ensures
        r@.len() == n,
        forall|j: int| 0 <= j < n ==> r@[(#[trigger] pairs@[j]).0 as int] == pairs@[j].1,
{
    let mut slots: Vec<Option<String>> = Vec::new();
    while slots.len() < n
        invariant
            slots@.len() <= n,
        decreases n - slots@.len(),
    {
        slots.push(None);
    }
    let mut i: usize = 0;
    while i < pairs.len()
        invariant
            0 <= i <= pairs@.len() == n,
            slots@.len() == n,
            forall|i2: int| 0 <= i2 < n ==> (#[trigger] pairs@[i2]).0 < n,
            forall|i2: int, j2: int| 0 <= i2 < j2 < n ==> pairs@[i2].0 != pairs@[j2].0,
            forall|j: int|
                0 <= j < i ==> slots@[(#[trigger] pairs@[j]).0 as int] == Some(pairs@[j].1),
        decreases pairs@.len() - i,
    {
        let idx = pairs[i].0;
        let text = pairs[i].1.clone();
        let ghost slots_before = slots@;
        slots.set(idx, Some(text));
        proof {
            assert forall|j: int|
                0 <= j < i + 1 implies slots@[(#[trigger] pairs@[j]).0 as int] == Some(
                pairs@[j].1,
            ) by {
                if j < i {
                    assert(pairs@[j].0 != pairs@[i as int].0);
                    assert(slots@[pairs@[j].0 as int] == slots_before[pairs@[j].0 as int]);
                }
            }
        }
        i = i + 1;
    }
    let mut out: Vec<String> = Vec::new();
    let mut s: usize = 0;
    while s < slots.len()
        invariant
            0 <= s <= slots@.len() == n,
            out@.len() == s,
            forall|u: int| 0 <= u < s && slots@[u] is Some ==> (#[trigger] out@[u]) == slots@[u]->0,
        decreases slots@.len() - s,
    {
        match &slots[s] {
            Some(t) => out.push(t.clone()),
            None => out.push(String::new()),
        }
        s = s + 1;
    }
    out
}

/// Keeps at most the first `top_k` search hits, as the search gateway's
/// top-K truncation demands.
pub fn truncate_hits(hits: &mut Vec<SerperItem>, top_k: usize)
    ensures
        top_k <= old(hits)@.len() ==> final(hits)@ == old(hits)@.subrange(0, top_k as int),
        top_k > old(hits)@.len() ==> final(hits)@ == old(hits)@,
{
    hits.truncate(top_k);
}

/// Adopts raw search hits as evidence items, field for field.
pub fn evidence_from_serper(items: &Vec<SerperItem>) -> (r: Vec<EvidenceItem>)
    ensures
        r@.len() == items@.len(),
        forall|i: int|
            0 <= i < items@.len() ==> (#[trigger] r@[i]).title == items@[i].title && r@[i].link
                == items@[i].link && r@[i].snippet == items@[i].snippet,
{
    let mut r: Vec<EvidenceItem> = Vec::new();
    let mut i: usize = 0;
    while i < items.len()
        invariant
            0 <= i <= items@.len(),
            r@.len() == i,
            forall|j: int|
                0 <= j < i ==> (#[trigger] r@[j]).title == items@[j].title && r@[j].link
                    == items@[j].link && r@[j].snippet == items@[j].snippet,
        decreases items@.len() - i,
    {
        let it = &items[i];
        r.push(EvidenceItem { title: it.title.clone(), snippet: it.snippet.clone(), link: it.link.clone() });
        i = i + 1;
    }
    r
}

} // verus!
