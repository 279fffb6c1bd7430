//! Core logic of a desktop note-taking backend: model-path validation and
//! simulated inference state, a keyword-driven response table, and the
//! decision logic behind directory listing and creation.

pub mod download;
pub mod fsops;
pub mod llm;
pub mod matching;
pub mod responses;
pub mod text;
