//! Format detection: which of the three dialects a document is written in.

use crate::dialect::Dialect;
use crate::engine::{pattern_compiles, pattern_found, search};
use crate::error::OcrError;
use vstd::prelude::*;

verus! {

/// Whether a document with this content shows the signature of `dialect`.
pub open spec fn shows(content: Seq<char>, dialect: Dialect) -> bool {
    pattern_found(dialect.signature(), content)
}

/// The outcome of testing one signature against a document: whether it is
/// shown, or an engine failure where the engine does not accept the
/// signature pattern.
pub open spec fn signature_test(content: Seq<char>, dialect: Dialect) -> Result<bool, OcrError> {
    if pattern_compiles(dialect.signature()) {
        Ok(shows(content, dialect))
    } else {
        Err(OcrError::Engine)
    }
}

/// Whether the engine accepts all three signature patterns.
pub open spec fn signatures_compile() -> bool {
    &&& pattern_compiles(Dialect::MiniOcr.signature())
    &&& pattern_compiles(Dialect::Hocr.signature())
    &&& pattern_compiles(Dialect::Alto.signature())
}

/// The verdict for a document of which it is known which signatures it
/// shows: the signatures are tried in the order MiniOCR, hOCR, ALTO and the
/// first one shown decides.
pub open spec fn verdict(miniocr: bool, hocr: bool, alto: bool) -> Result<Dialect, OcrError> {
    if miniocr {
        Ok(Dialect::MiniOcr)
    } else if hocr {
        Ok(Dialect::Hocr)
    } else if alto {
        Ok(Dialect::Alto)
    } else {
        Err(OcrError::UnknownFormat)
    }
}

/// The outcome of detection on a document with this content. The signatures
/// are tested in the order MiniOCR, hOCR, ALTO, up to the first one shown,
/// which decides; a test that fails ends the detection with its failure; a
/// document that shows none is of unknown format.
pub open spec fn detection(content: Seq<char>) -> Result<Dialect, OcrError> {
    match signature_test(content, Dialect::MiniOcr) {
        Err(e) => Err(e),
        Ok(true) => Ok(Dialect::MiniOcr),
        Ok(false) => match signature_test(content, Dialect::Hocr) {
            Err(e) => Err(e),
            Ok(true) => Ok(Dialect::Hocr),
            Ok(false) => match signature_test(content, Dialect::Alto) {
                Err(e) => Err(e),
                Ok(true) => Ok(Dialect::Alto),
                Ok(false) => Err(OcrError::UnknownFormat),
            },
        },
    }
}

/// The place of a dialect in the order in which the signatures are tried.
pub open spec fn rank(dialect: Dialect) -> nat {
    match dialect {
        Dialect::MiniOcr => 0,
        Dialect::Hocr => 1,
        Dialect::Alto => 2,
    }
}

/// Detection depends on the content of the document alone: two detections on
/// documents of equal content end in the same dialect or in the same
/// failure.
pub proof fn lemma_detection_repeats(
    first: Seq<char>,
    second: Seq<char>,
    r1: Result<Dialect, OcrError>,
    r2: Result<Dialect, OcrError>,
)
    requires
        first == second,
        r1 == detection(first),
        r2 == detection(second),
    ensures
        r1 == r2,
{
}

/// The signatures are tried in a fixed order. A document that shows the
/// MiniOCR signature is MiniOCR whatever else it shows; one that shows the
/// hOCR signature but not the MiniOCR one is hOCR whether or not it shows
/// the ALTO signature; one that shows only the ALTO signature is ALTO; and
/// one that shows none is of unknown format. A signature counts as shown or
/// not shown once its test has not failed.
pub proof fn lemma_detection_priority(content: Seq<char>)
    ensures
        signature_test(content, Dialect::MiniOcr) == Ok::<bool, OcrError>(true) ==> detection(
            content,
        ) == Ok::<Dialect, OcrError>(Dialect::MiniOcr),
        signature_test(content, Dialect::MiniOcr) == Ok::<bool, OcrError>(false) && signature_test(
            content,
            Dialect::Hocr,
        ) == Ok::<bool, OcrError>(true) ==> detection(content) == Ok::<Dialect, OcrError>(
            Dialect::Hocr,
        ),
        signature_test(content, Dialect::MiniOcr) == Ok::<bool, OcrError>(false) && signature_test(
            content,
            Dialect::Hocr,
        ) == Ok::<bool, OcrError>(false) && signature_test(content, Dialect::Alto) == Ok::<
            bool,
            OcrError,
        >(true) ==> detection(content) == Ok::<Dialect, OcrError>(Dialect::Alto),
        signature_test(content, Dialect::MiniOcr) == Ok::<bool, OcrError>(false) && signature_test(
            content,
            Dialect::Hocr,
        ) == Ok::<bool, OcrError>(false) && signature_test(content, Dialect::Alto) == Ok::<
            bool,
            OcrError,
        >(false) ==> detection(content) == Err::<Dialect, OcrError>(OcrError::UnknownFormat),
{
}

/// Where the engine accepts the signature patterns, a document is classified
/// as a dialect exactly when it shows that dialect's signature and the
/// signature of no dialect that is tried before it; it is of unknown format
/// exactly when it shows no signature at all; and detection fails in no
/// other way.
pub proof fn lemma_detection_is_first_shown(content: Seq<char>, dialect: Dialect)
    requires
        signatures_compile(),
    ensures
        detection(content) == verdict(
            shows(content, Dialect::MiniOcr),
            shows(content, Dialect::Hocr),
            shows(content, Dialect::Alto),
        ),
        detection(content) == Ok::<Dialect, OcrError>(dialect) <==> shows(content, dialect) && (
        forall|earlier: Dialect| rank(earlier) < rank(dialect) ==> !shows(content, earlier)),
        detection(content) == Err::<Dialect, OcrError>(OcrError::UnknownFormat) <==> (forall|
            any: Dialect,
        |
            !shows(content, any)),
        detection(content) is Err ==> detection(content) == Err::<Dialect, OcrError>(
            OcrError::UnknownFormat,
        ),
{
    if detection(content) is Err {
        assert forall|any: Dialect| !shows(content, any) by {
            match any {
                Dialect::MiniOcr => {},
                Dialect::Hocr => {},
                Dialect::Alto => {},
            }
        }
    }
    if detection(content) == Ok::<Dialect, OcrError>(dialect) {
        assert forall|earlier: Dialect| rank(earlier) < rank(dialect) implies !shows(
            content,
            earlier,
        ) by {
            match earlier {
                Dialect::MiniOcr => {},
                Dialect::Hocr => {},
                Dialect::Alto => {},
            }
        }
    }
}

/// Detection fails over the engine exactly when the engine does not accept
/// the pattern of a signature that has to be tried: the MiniOCR one, or, for
/// a document that does not show the signatures before it, the hOCR or the
/// ALTO one.
pub proof fn lemma_detection_engine_failure(content: Seq<char>)
    ensures
        detection(content) == Err::<Dialect, OcrError>(OcrError::Engine) <==> {
            ||| !pattern_compiles(Dialect::MiniOcr.signature())
            ||| !shows(content, Dialect::MiniOcr) && !pattern_compiles(Dialect::Hocr.signature())
            ||| !shows(content, Dialect::MiniOcr) && !shows(content, Dialect::Hocr)
                && !pattern_compiles(Dialect::Alto.signature())
        },
        signatures_compile() ==> detection(content) != Err::<Dialect, OcrError>(OcrError::Engine),
{
}

/// Decides the dialect from the three signature tests.
pub fn classify(miniocr: bool, hocr: bool, alto: bool) -> (r: Result<Dialect, OcrError>)
    ensures
        r == verdict(miniocr, hocr, alto),
{
    if miniocr {
        Ok(Dialect::MiniOcr)
    } else if hocr {
        Ok(Dialect::Hocr)
    } else if alto {
        Ok(Dialect::Alto)
    } else {
        Err(OcrError::UnknownFormat)
    }
}

/// Tests one signature against a document: whether the document shows it.
/// Fails, with `OcrError::Engine`, exactly when the engine does not accept
/// the signature pattern.
pub fn has_signature(document: &str, dialect: Dialect) -> (r: Result<bool, OcrError>)
    ensures
        r == signature_test(document@, dialect),
{
    match search(dialect.signature_pattern(), document) {
        Ok(shown) => Ok(shown),
        Err(_) => Err(OcrError::Engine),
    }
}

/// Classifies a document by its signatures: the first dialect, in the order
/// MiniOCR, hOCR, ALTO, whose signature the document shows, and
/// `OcrError::UnknownFormat` if it shows none. Fails with `OcrError::Engine`
/// exactly when the engine does not accept the pattern of a signature that
/// has to be tried.
pub fn detect(document: &str) -> (r: Result<Dialect, OcrError>)
    ensures
        r == detection(document@),
{
    // The first signature shown decides, so the ones after it are skipped
    // and passed on as not shown.
    let miniocr = has_signature(document, Dialect::MiniOcr)?;
    let hocr = !miniocr && has_signature(document, Dialect::Hocr)?;
    let alto = !miniocr && !hocr && has_signature(document, Dialect::Alto)?;
    classify(miniocr, hocr, alto)
}

} // verus!
