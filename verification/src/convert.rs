//! The whole conversion: detect the dialect, extract the words with the
//! pattern of that dialect, and write the records.

use crate::detect::{detect, detection, has_signature, shows, signatures_compile};
use crate::dialect::{Dialect, TEXT_GROUP};
use crate::emit::{records, render};
use crate::engine::{find_words, pattern_compiles};
use crate::error::OcrError;
use crate::extract::{
    byte_length, extract, extraction, lemma_extraction_failures, word_matches, TokenView,
};
use vstd::prelude::*;

verus! {

/// What the content of a document converts to with a given delimiter: the
/// records of the tokens that the word pattern of the detected dialect
/// yields, or the failure of the detection or of the extraction.
pub open spec fn conversion(content: Seq<char>, delimiter: Seq<char>) -> Result<
    Seq<char>,
    OcrError,
> {
    match detection(content) {
        Err(e) => Err(e),
        Ok(dialect) => match extraction(content, dialect) {
            Err(e) => Err(e),
            Ok(tokens) => Ok(records(tokens, delimiter)),
        },
    }
}

/// Whether the engine accepts every built-in pattern: the three signatures
/// and the three word patterns.
pub open spec fn engine_ready() -> bool {
    &&& signatures_compile()
    &&& pattern_compiles(Dialect::MiniOcr.word())
    &&& pattern_compiles(Dialect::Hocr.word())
    &&& pattern_compiles(Dialect::Alto.word())
}

/// Whether the engine accepts both patterns of one dialect.
fn dialect_ready(dialect: Dialect) -> (ok: bool)
    ensures
        ok == (pattern_compiles(dialect.signature()) && pattern_compiles(dialect.word())),
{
    has_signature("", dialect).is_ok() && find_words(
        dialect.word_pattern(),
        TEXT_GROUP,
        "",
    ).is_ok()
}

/// Asks the engine whether it accepts every built-in pattern. Where it
/// does, no detection fails over the engine, and an extraction does so only
/// over a match that the engine reports without text or outside the
/// document.
pub fn engine_accepts_patterns() -> (ok: bool)
    ensures
        ok == engine_ready(),
{
    dialect_ready(Dialect::MiniOcr) && dialect_ready(Dialect::Hocr) && dialect_ready(
        Dialect::Alto,
    )
}

/// The outcome of a conversion as a mathematical value.
pub open spec fn output_view(r: Result<String, OcrError>) -> Result<Seq<char>, OcrError> {
    match r {
        Ok(text) => Ok(text@),
        Err(e) => Err(e),
    }
}

/// A document that shows none of the three signatures is of unknown format
/// and converts to nothing: detection and conversion both fail with
/// `OcrError::UnknownFormat`, and there is no output, whatever the delimiter.
pub proof fn lemma_unknown_format_yields_nothing(content: Seq<char>, delimiter: Seq<char>)
    requires
        signatures_compile(),
        !shows(content, Dialect::MiniOcr),
        !shows(content, Dialect::Hocr),
        !shows(content, Dialect::Alto),
    ensures
        detection(content) == Err::<Dialect, OcrError>(OcrError::UnknownFormat),
        conversion(content, delimiter) == Err::<Seq<char>, OcrError>(OcrError::UnknownFormat),
{
}

/// A conversion fails as an unknown format exactly when the detection does,
/// and over a character entity exactly when the dialect is detected and the
/// words under its pattern hold text that does not decode.
pub proof fn lemma_conversion_failures(content: Seq<char>, delimiter: Seq<char>)
    ensures
        conversion(content, delimiter) == Err::<Seq<char>, OcrError>(OcrError::UnknownFormat)
            <==> detection(content) == Err::<Dialect, OcrError>(OcrError::UnknownFormat),
        conversion(content, delimiter) == Err::<Seq<char>, OcrError>(OcrError::EntityDecode)
            <==> detection(content) is Ok && extraction(content, detection(content)->Ok_0)
            == Err::<Seq<TokenView>, OcrError>(OcrError::EntityDecode),
{
    if detection(content) is Ok {
        let dialect = detection(content)->Ok_0;
        if extraction(content, dialect) is Err {
            if pattern_compiles(dialect.word()) {
                lemma_extraction_failures(word_matches(content, dialect), byte_length(content));
            }
        }
    }
}

/// Words are extracted with the pattern of the dialect that was detected,
/// and with no other: an output is the records of the tokens that the
/// content yields under the detected dialect.
pub proof fn lemma_conversion_is_consistent(content: Seq<char>, delimiter: Seq<char>)
    requires
        conversion(content, delimiter) is Ok,
    ensures
        detection(content) is Ok,
        extraction(content, detection(content)->Ok_0) is Ok,
        conversion(content, delimiter)->Ok_0 == records(
            extraction(content, detection(content)->Ok_0)->Ok_0,
            delimiter,
        ),
{
}

/// Converts a document to its token stream: the output text on success,
/// `OcrError::UnknownFormat` for a document that shows no signature,
/// `OcrError::EntityDecode` for a word whose text does not decode, and
/// `OcrError::Engine` where the detection or the extraction fails over the
/// engine. On failure there is no output.
pub fn convert(document: &str, delimiter: &str) -> (r: Result<String, OcrError>)
    ensures
        output_view(r) == conversion(document@, delimiter@),
{
    let dialect = detect(document)?;
    let tokens = extract(document, dialect)?;
    Ok(render(&tokens, delimiter))
}

} // verus!
