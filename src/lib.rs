//! Verified core of a chord-driven multi-line clipboard: key-state tracking,
//! combo-key classification, an undo-capable line buffer, the text-modifier
//! pipeline, run-mode toggles and the decisions of a paste session.
pub mod buffer;
pub mod config;
pub mod keys;
pub mod modifiers;
pub mod combo;
pub mod paste;
pub mod engine;
