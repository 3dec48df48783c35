//! Cumulative selection ("weasel") search: a chromosome of symbols is copied,
//! mutated and selected, generation after generation, until it spells its
//! target sentence.

pub mod charset;
pub mod gene;
pub mod chromosome;
