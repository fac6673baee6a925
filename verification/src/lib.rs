//! Byte-offset tokenizer for OCR markup in the MiniOCR, hOCR and ALTO dialects.
//!
//! A document is classified by `detect`, its words are found by `extract`,
//! and `render` writes them as `<word><delimiter><offset>` records; `convert`
//! does all three.

pub mod convert;
pub mod detect;
pub mod dialect;
pub mod emit;
pub mod engine;
pub mod error;
pub mod extract;

pub use convert::{convert, engine_accepts_patterns};
pub use detect::{classify, detect, has_signature};
pub use dialect::Dialect;
pub use emit::{decimal_string, render, render_token, DEFAULT_DELIMITER};
pub use engine::WordMatch;
pub use error::OcrError;
pub use extract::{
    assemble_token, byte_len, extract, token_from_match, tokens_from_matches, Token,
};
