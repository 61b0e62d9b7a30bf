//! Publishes a directory of Markdown notes as a static site in which every
//! note lives at an address that cannot be guessed without a secret.
//!
//! The library holds the rules: which directory entries are notes
//! ([`entry`]), what a note's address is ([`address`]), how a note is
//! rendered and what its title is ([`markdown`]), what the configuration
//! file may say ([`config`]), and what a publication consists of
//! ([`publish`]). Reading and writing files is left to the program around
//! it.

pub mod address;
pub mod config;
pub mod crockford;
pub mod entry;
pub mod markdown;
pub mod publish;
pub mod sha256;
pub mod text;
pub mod toml_value;
