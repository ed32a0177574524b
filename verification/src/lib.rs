//! Named queries over a secure bootloader's capability word.
//!
//! A bootloader build advertises its features as single bits of a 32-bit
//! word and reports how many images it manages. This crate gives those bits
//! names and answers questions about a word that the caller has obtained from
//! the bootloader. It holds no state: every query is a function of the word,
//! or count, that it is handed.

pub mod caps;
pub mod lemmas;

pub use caps::Caps;
