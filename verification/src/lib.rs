//! Verified core of the doomscroll proxy: the decisions, texts and
//! bookkeeping behind crawling, throttling, summaries and teasers.

pub mod text;
pub mod diagnostics;
pub mod settings;
pub mod crawler;
pub mod media;
pub mod random;
pub mod selection;
pub mod recency;
pub mod summary;
pub mod templates;
pub mod buffer;
