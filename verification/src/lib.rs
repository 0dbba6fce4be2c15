//! Convention-aware commit messages for Jujutsu: the Conventional Commits and
//! Gitmoji vocabularies, parsing and building of messages, and detection of the
//! convention a history follows.
pub mod text;
pub mod types;
pub mod commit;
pub mod convention;
pub mod cli;
pub mod jj;
pub mod config;
