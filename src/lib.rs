//! Strips emoji-presentation characters from text, and decides how a run over
//! one file or a directory tree of markdown files proceeds.
pub mod orchestrator;
pub mod transform;
