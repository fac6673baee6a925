//! The boundary to the pattern engine (`regex`) and to the entity decoder
//! (`html_entities`). Nothing in this module is proved: every contract here
//! is taken on trust from the documentation and source of those crates, and
//! everything else in the library is proved from these contracts.

use vstd::prelude::*;
use vstd::utf8::{encode_utf8, is_char_boundary};

verus! {

/// The error `regex::Regex::new` gives for a pattern it cannot compile.
#[verifier::external_type_specification]
#[verifier::external_body]
pub struct ExPatternError(regex::Error);

/// The error `html_entities::decode_html_entities` gives for a malformed or
/// unknown entity.
#[verifier::external_type_specification]
#[verifier::external_body]
pub struct ExDecodeError(html_entities::DecodeError);

/// One match of a word pattern, as the engine reports it.
#[derive(Clone, Debug, PartialEq, Eq)]
pub struct WordMatch {
    /// Byte offset in the searched text at which the whole match begins.
    pub start: usize,
    /// Byte offset in the searched text just after the whole match.
    pub end: usize,
    /// The part of the match taken by the requested group, if that group
    /// exists and took part in the match.
    pub text: Option<String>,
}

/// A `WordMatch` as a mathematical value.
pub struct WordMatchView {
    pub start: nat,
    pub end: nat,
    pub text: Option<Seq<char>>,
}

/// An optional text as a mathematical value.
pub open spec fn optional_text(text: Option<String>) -> Option<Seq<char>> {
    match text {
        Some(s) => Some(s@),
        None => None,
    }
}

impl View for WordMatch {
    type V = WordMatchView;

    open spec fn view(&self) -> WordMatchView {
        WordMatchView {
            start: self.start as nat,
            end: self.end as nat,
            text: optional_text(self.text),
        }
    }
}

/// The views of a sequence of matches, in the same order.
pub open spec fn match_views(matches: Seq<WordMatch>) -> Seq<WordMatchView> {
    matches.map_values(|m: WordMatch| m@)
}

/// The match is a stretch of the text: it ends no earlier than it begins and
/// no later than the text does, and both ends lie between characters.
pub open spec fn span_fits(m: WordMatchView, text: Seq<char>) -> bool {
    &&& m.start <= m.end <= encode_utf8(text).len()
    &&& is_char_boundary(encode_utf8(text), m.start as int)
    &&& is_char_boundary(encode_utf8(text), m.end as int)
}

/// The matches are stretches of the text that follow one another without
/// overlap: each begins after the one before it begins, and no earlier than
/// the one before it ends.
pub open spec fn well_placed(matches: Seq<WordMatchView>, text: Seq<char>) -> bool {
    &&& forall|i: int| 0 <= i < matches.len() ==> span_fits(#[trigger] matches[i], text)
    &&& forall|i: int, j: int|
        0 <= i < j < matches.len() ==> (#[trigger] matches[i]).start < (#[trigger] matches[j]).start
            && matches[i].end <= matches[j].start
}

/// Whether the engine accepts `pattern`: whether `regex::Regex::new` compiles
/// it.
pub uninterp spec fn pattern_compiles(pattern: Seq<char>) -> bool;

/// Whether `pattern`, once compiled, has a match anywhere in `text`: what
/// `regex::Regex::is_match` answers.
pub uninterp spec fn pattern_found(pattern: Seq<char>, text: Seq<char>) -> bool;

/// The successive non-overlapping matches of `pattern` in `text`, each with
/// the part taken by the group named `group`: what walking
/// `regex::Regex::captures_iter` yields.
pub uninterp spec fn pattern_matches(pattern: Seq<char>, group: Seq<char>, text: Seq<char>) -> Seq<
    WordMatchView,
>;

/// The text that `html_entities::decode_html_entities` makes of `raw`, or
/// `None` where it reports an error.
pub uninterp spec fn decoded_entities(raw: Seq<char>) -> Option<Seq<char>>;

/// Compiles `pattern` with `regex::Regex::new` and asks
/// `regex::Regex::is_match` whether it matches anywhere in `text`.
///
/// Trusted: the call fails exactly when the engine does not accept the
/// pattern, which depends on the pattern alone; otherwise the answer is the
/// engine's, and it depends on the pattern and the text alone.
#[verifier::external_body]
pub(crate) fn search(pattern: &str, text: &str) -> (r: Result<bool, regex::Error>)
    ensures
        r is Ok <==> pattern_compiles(pattern@),
        r matches Ok(found) ==> found == pattern_found(pattern@, text@),
{
    let re = regex::Regex::new(pattern)?;
    Ok(re.is_match(text))
}

/// Compiles `pattern` with `regex::Regex::new`, walks
/// `regex::Regex::captures_iter` over `text`, and hands out each match as the
/// start and end of the whole match (`regex::Captures::get_match`,
/// `regex::Match::start`, `regex::Match::end`) and the text of the group
/// named `group` (`regex::Captures::name`, `regex::Match::as_str`).
///
/// Trusted: the call fails exactly when the engine does not accept the
/// pattern; otherwise the matches are the engine's and depend on the pattern,
/// the group name and the text alone. Each match is a range that slices the
/// text, with its start no later than its end. Each search resumes where the
/// match before it ended, and an empty match at that place is passed over, so
/// the matches do not overlap and their starts strictly increase.
#[verifier::external_body]
pub(crate) fn find_words(pattern: &str, group: &str, text: &str) -> (r: Result<
    Vec<WordMatch>,
    regex::Error,
>)
    ensures
        r is Ok <==> pattern_compiles(pattern@),
        r matches Ok(found) ==> match_views(found@) == pattern_matches(pattern@, group@, text@),
        r matches Ok(found) ==> well_placed(match_views(found@), text@),
{
    let re = regex::Regex::new(pattern)?;
    Ok(
        re.captures_iter(text).map(
            |c| WordMatch {
                start: c.get_match().start(),
                end: c.get_match().end(),
                text: c.name(group).map(|m| m.as_str().to_owned()),
            },
        ).collect(),
    )
}

/// `html_entities::decode_html_entities` resolves the numeric and named
/// character entities in a text.
///
/// Trusted: the outcome depends on the text alone; it is the decoded text on
/// success and an error for a malformed or unknown entity.
pub assume_specification[ html_entities::decode_html_entities ](html: &str) -> (r: Result<
    String,
    html_entities::DecodeError,
>)
    ensures
        r matches Ok(text) ==> decoded_entities(html@) == Some(text@),
        r is Err ==> decoded_entities(html@) is None,
;

} // verus!
