//! A factuality-reward library: a model completion is split into sentences,
//! windowed, mined for atomic factual claims, matched against retrieved web
//! evidence, judged claim by claim, and finally scored with an exact
//! precision/recall/F1 rule against a target claim count.
//!
//! The remote chat and search services are reached by the surrounding
//! application; this crate holds the verified logic between those calls:
//! prompt construction, output parsing policy, evidence bookkeeping, label
//! collapse, and the scoring arithmetic, carried out on exact rationals.

pub mod extraction;
pub mod gateway;
pub mod retrieve;
pub mod reward;
pub mod scoring;
pub mod segments;
pub mod strutil;
pub mod types;
pub mod verification;
