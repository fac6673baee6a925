//! The three supported OCR markup dialects and the patterns that identify
//! them and their words.

use vstd::prelude::*;

verus! {

/// One of the supported OCR markup formats.
#[derive(Clone, Copy, Debug, PartialEq, Eq, Structural)]
pub enum Dialect {
    MiniOcr,
    Hocr,
    Alto,
}

/// Signature of a MiniOCR document: an optional XML declaration at the very
/// start, directly followed by the `<ocr>` root tag.
pub const MINIOCR_SIGNATURE: &'static str = r"^(?:<\?xml.+?\?>)?<ocr>";

/// Signature of an hOCR document: anywhere in it, the opening tag of a `div`
/// whose class, in single or double quotes, is exactly `ocr_page`, wherever
/// the class stands among the attributes of the tag.
pub const HOCR_SIGNATURE: &'static str =
    r#"<div(?:\s[^>]*?)?\sclass=(?:"ocr_page"|'ocr_page')[^>]*>"#;

/// Signature of an ALTO document: anywhere in it, `<alto` followed by
/// whitespace or by `>`. The tag name is case-sensitive and takes no
/// namespace prefix.
pub const ALTO_SIGNATURE: &'static str = r"<alto[\s>]";

/// A word of a MiniOCR document: `<w`, the rest of the opening tag, a
/// content without whitespace, and `</w>`. The content is the word's text.
pub const MINIOCR_WORD: &'static str = r"<w.*?>(?P<text>[^\s]+?)</w>";

/// A word of an hOCR document: the opening tag of a `span` whose class, in
/// single or double quotes, is `ocrx_word`, a content without whitespace, and
/// `</span>`. The content is the word's text.
pub const HOCR_WORD: &'static str = r#"<span class=['"]ocrx_word['"].+?>(?P<text>[^\s]+?)</span>"#;

/// A word of an ALTO document: the tag of a `String` element with a
/// `CONTENT` attribute in double quotes. The attribute's value is the word's
/// text.
pub const ALTO_WORD: &'static str = r#"<String.+?CONTENT="(?P<text>.+?)".*?>"#;

/// The name of the group that holds a word's text in each word pattern.
pub const TEXT_GROUP: &'static str = "text";

impl Dialect {
    /// The signature pattern of this dialect, as a sequence of characters.
    pub open spec fn signature(self) -> Seq<char> {
        match self {
            Dialect::MiniOcr => MINIOCR_SIGNATURE@,
            Dialect::Hocr => HOCR_SIGNATURE@,
            Dialect::Alto => ALTO_SIGNATURE@,
        }
    }

    /// The pattern whose matches anywhere in a document mark it as being of
    /// this dialect.
    pub fn signature_pattern(self) -> (pattern: &'static str)
        ensures
            pattern@ == self.signature(),
    {
        match self {
            Dialect::MiniOcr => MINIOCR_SIGNATURE,
            Dialect::Hocr => HOCR_SIGNATURE,
            Dialect::Alto => ALTO_SIGNATURE,
        }
    }

    /// The word pattern of this dialect, as a sequence of characters.
    pub open spec fn word(self) -> Seq<char> {
        match self {
            Dialect::MiniOcr => MINIOCR_WORD@,
            Dialect::Hocr => HOCR_WORD@,
            Dialect::Alto => ALTO_WORD@,
        }
    }

    /// The pattern that matches one word of a document of this dialect,
    /// markup included, with the word's text in the group `TEXT_GROUP`.
    pub fn word_pattern(self) -> (pattern: &'static str)
        ensures
            pattern@ == self.word(),
    {
        match self {
            Dialect::MiniOcr => MINIOCR_WORD,
            Dialect::Hocr => HOCR_WORD,
            Dialect::Alto => ALTO_WORD,
        }
    }
}

} // verus!
