//! The vocabularies of the two supported conventions.
pub mod conventional;
pub mod gitmoji;
