//! Classifies a short piece of text as one of several Brahmic scripts or one
//! of several Latin transliteration conventions for Sanskrit/Indic text.
//!
//! The pipeline has two pure stages: a preprocessor that strips control
//! markers from the input, and a classifier that first scans for Brahmic
//! codepoints and, failing that, evaluates an ordered cascade of signature
//! patterns over the Latin text.

pub mod scheme;
pub mod preprocess;
pub mod brahmic;
pub mod romanization;
pub mod classify;

pub use scheme::Scheme;
pub use classify::{classify, detect_scheme};
pub use brahmic::first_brahmic_char;
