//! Core of an editor-integration service for the Aegis language: it turns
//! diagnostic text into positional ranges, extracts declared symbols from a
//! program tree, keeps the most recent symbol set for completion, and decides
//! each step of an analysis pass.
//!
//! The external compiler, loader and transport are collaborators outside this
//! crate: the surrounding binary calls them and hands their results in as
//! plain values.

pub mod analyzer;
pub mod completion;
pub mod index;
pub mod locator;
pub mod walker;
