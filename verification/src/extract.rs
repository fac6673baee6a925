//! Word extraction: from the matches of a dialect's word pattern to tokens.

use crate::dialect::{Dialect, TEXT_GROUP};
use crate::engine::{
    decoded_entities, find_words, match_views, optional_text, pattern_compiles, pattern_matches,
    span_fits, well_placed, WordMatch, WordMatchView,
};
use crate::error::OcrError;
use html_entities::decode_html_entities;
use vstd::prelude::*;
use vstd::utf8::{encode_utf8, is_char_boundary};

verus! {

/// A word of a document and the place where its markup begins.
#[derive(Clone, Debug, PartialEq, Eq)]
pub struct Token {
    /// The word, with character entities resolved.
    pub text: String,
    /// Byte index, in the document, of the first byte of the markup that
    /// encodes the word.
    pub byte_offset: usize,
}

/// A `Token` as a mathematical value.
pub struct TokenView {
    pub text: Seq<char>,
    pub byte_offset: nat,
}

impl View for Token {
    type V = TokenView;

    open spec fn view(&self) -> TokenView {
        TokenView { text: self.text@, byte_offset: self.byte_offset as nat }
    }
}

/// The views of a sequence of tokens, in the same order.
pub open spec fn token_views(tokens: Seq<Token>) -> Seq<TokenView> {
    tokens.map_values(|t: Token| t@)
}

/// The token made of a decoded word text and the start of its match, in a
/// document of `document_len` bytes. Without decoded text the document is at
/// fault; a start at or after the end of the document is a fault of the
/// engine.
pub open spec fn assembled(decoded: Option<Seq<char>>, start: nat, document_len: nat) -> Result<
    TokenView,
    OcrError,
> {
    match decoded {
        None => Err(OcrError::EntityDecode),
        Some(text) => if start < document_len {
            Ok(TokenView { text, byte_offset: start })
        } else {
            Err(OcrError::Engine)
        },
    }
}

/// The token that one match stands for in a document of `document_len`
/// bytes: its text is the decoded word text and its offset is the start of
/// the match, whatever the decoding does to the text. A match without word
/// text is a fault of the engine.
pub open spec fn token_of(m: WordMatchView, document_len: nat) -> Result<TokenView, OcrError> {
    match m.text {
        None => Err(OcrError::Engine),
        Some(raw) => assembled(decoded_entities(raw), m.start, document_len),
    }
}

/// The tokens that a sequence of matches stands for, one per match and in
/// the same order, or the error of the first match that yields no token.
pub open spec fn tokens_of(matches: Seq<WordMatchView>, document_len: nat) -> Result<
    Seq<TokenView>,
    OcrError,
>
    decreases matches.len(),
{
    if matches.len() == 0 {
        Ok(Seq::empty())
    } else {
        match tokens_of(matches.drop_last(), document_len) {
            Err(e) => Err(e),
            Ok(tokens) => match token_of(matches.last(), document_len) {
                Err(e) => Err(e),
                Ok(token) => Ok(tokens.push(token)),
            },
        }
    }
}

/// Each token's markup begins after that of the token before it.
pub open spec fn in_document_order(tokens: Seq<TokenView>) -> bool {
    forall|i: int, j: int|
        0 <= i < j < tokens.len() ==> tokens[i].byte_offset < tokens[j].byte_offset
}

/// Every token's offset lies between two characters of the content, or
/// before its first.
pub open spec fn on_char_boundaries(tokens: Seq<TokenView>, content: Seq<char>) -> bool {
    forall|i: int|
        0 <= i < tokens.len() ==> is_char_boundary(
            encode_utf8(content),
            tokens[i].byte_offset as int,
        )
}

/// Every token's offset is the index of a byte of the document.
pub open spec fn within_document(tokens: Seq<TokenView>, document_len: nat) -> bool {
    forall|i: int| 0 <= i < tokens.len() ==> tokens[i].byte_offset < document_len
}

/// The number of bytes that a document with this content takes.
pub open spec fn byte_length(content: Seq<char>) -> nat {
    encode_utf8(content).len()
}

/// The number of bytes that a document takes.
pub fn byte_len(document: &str) -> (len: usize)
    ensures
        len == byte_length(document@),
{
    document.as_bytes().len()
}

/// The outcome for one token as a mathematical value.
pub open spec fn token_outcome_view(r: Result<Token, OcrError>) -> Result<TokenView, OcrError> {
    match r {
        Ok(token) => Ok(token@),
        Err(e) => Err(e),
    }
}

/// The outcome of an extraction as a mathematical value.
pub open spec fn outcome_view(r: Result<Vec<Token>, OcrError>) -> Result<Seq<TokenView>, OcrError> {
    match r {
        Ok(tokens) => Ok(token_views(tokens@)),
        Err(e) => Err(e),
    }
}

/// The matches of the dialect's word pattern in a document with this
/// content.
pub open spec fn word_matches(content: Seq<char>, dialect: Dialect) -> Seq<WordMatchView> {
    pattern_matches(dialect.word(), TEXT_GROUP@, content)
}

/// What the content of a document of the given dialect yields: the tokens of
/// the matches of the dialect's word pattern, or the first error among them,
/// or an engine failure where the engine does not accept that pattern.
pub open spec fn extraction(content: Seq<char>, dialect: Dialect) -> Result<
    Seq<TokenView>,
    OcrError,
> {
    if pattern_compiles(dialect.word()) {
        tokens_of(word_matches(content, dialect), byte_length(content))
    } else {
        Err(OcrError::Engine)
    }
}

/// When matches yield tokens, there is one token per match, and the i-th
/// token has the decoded text and the start of the i-th match.
pub proof fn lemma_tokens_follow_matches(matches: Seq<WordMatchView>, document_len: nat)
    requires
        tokens_of(matches, document_len) is Ok,
    ensures
        tokens_of(matches, document_len)->Ok_0.len() == matches.len(),
        forall|i: int|
            0 <= i < matches.len() ==> token_of(#[trigger] matches[i], document_len) == Ok::<
                TokenView,
                OcrError,
            >(tokens_of(matches, document_len)->Ok_0[i]),
    decreases matches.len(),
{
    if matches.len() > 0 {
        lemma_tokens_follow_matches(matches.drop_last(), document_len);
        let tokens = tokens_of(matches, document_len)->Ok_0;
        assert forall|i: int| 0 <= i < matches.len() implies token_of(
            #[trigger] matches[i],
            document_len,
        ) == Ok::<TokenView, OcrError>(tokens[i]) by {
            if i < matches.len() - 1 {
                assert(matches[i] == matches.drop_last()[i]);
            }
        }
    }
}

/// When matches yield no tokens, the error is that of the first match that
/// yields no token.
pub proof fn lemma_first_failure_decides(matches: Seq<WordMatchView>, document_len: nat)
    requires
        tokens_of(matches, document_len) is Err,
    ensures
        exists|k: int|
            0 <= k < matches.len() && token_of(#[trigger] matches[k], document_len) == Err::<
                TokenView,
                OcrError,
            >(tokens_of(matches, document_len)->Err_0) && forall|j: int|
                0 <= j < k ==> token_of(#[trigger] matches[j], document_len) is Ok,
    decreases matches.len(),
{
    let head = matches.drop_last();
    if tokens_of(head, document_len) is Err {
        lemma_first_failure_decides(head, document_len);
        let k = choose|k: int|
            0 <= k < head.len() && token_of(#[trigger] head[k], document_len) == Err::<
                TokenView,
                OcrError,
            >(tokens_of(head, document_len)->Err_0) && forall|j: int|
                0 <= j < k ==> token_of(#[trigger] head[j], document_len) is Ok;
        assert forall|j: int| 0 <= j < k implies token_of(
            #[trigger] matches[j],
            document_len,
        ) is Ok by {
            assert(matches[j] == head[j]);
        }
    } else {
        lemma_tokens_follow_matches(head, document_len);
        let k = matches.len() - 1;
        assert forall|j: int| 0 <= j < k implies token_of(
            #[trigger] matches[j],
            document_len,
        ) is Ok by {
            assert(matches[j] == head[j]);
        }
    }
}

/// Matches fail to yield tokens in two ways only: a word text that does not
/// decode, or a fault of the engine.
pub proof fn lemma_extraction_failures(matches: Seq<WordMatchView>, document_len: nat)
    requires
        tokens_of(matches, document_len) is Err,
    ensures
        tokens_of(matches, document_len)->Err_0 == OcrError::EntityDecode || tokens_of(
            matches,
            document_len,
        )->Err_0 == OcrError::Engine,
    decreases matches.len(),
{
    if tokens_of(matches.drop_last(), document_len) is Err {
        lemma_extraction_failures(matches.drop_last(), document_len);
    }
}

/// Tokens keep the places of their matches: decoding the text moves no
/// offset. Every token lies within the document, and where the matches are
/// well placed in the content, the offsets strictly increase and lie on
/// character boundaries.
pub proof fn lemma_tokens_keep_offsets(
    matches: Seq<WordMatchView>,
    content: Seq<char>,
    document_len: nat,
)
    requires
        tokens_of(matches, document_len) is Ok,
    ensures
        forall|i: int|
            0 <= i < matches.len() ==> tokens_of(matches, document_len)->Ok_0[i].byte_offset
                == #[trigger] matches[i].start,
        within_document(tokens_of(matches, document_len)->Ok_0, document_len),
        well_placed(matches, content) ==> in_document_order(
            tokens_of(matches, document_len)->Ok_0,
        ),
        well_placed(matches, content) ==> on_char_boundaries(
            tokens_of(matches, document_len)->Ok_0,
            content,
        ),
{
    lemma_tokens_follow_matches(matches, document_len);
    let tokens = tokens_of(matches, document_len)->Ok_0;
    assert forall|i: int| 0 <= i < matches.len() implies tokens[i].byte_offset
        == #[trigger] matches[i].start by {
        assert(token_of(matches[i], document_len) == Ok::<TokenView, OcrError>(tokens[i]));
    }
    assert forall|i: int| 0 <= i < tokens.len() implies tokens[i].byte_offset < document_len by {
        assert(token_of(matches[i], document_len) == Ok::<TokenView, OcrError>(tokens[i]));
    }
    if well_placed(matches, content) {
        assert forall|i: int, j: int| 0 <= i < j < tokens.len() implies tokens[i].byte_offset
            < tokens[j].byte_offset by {
            assert(tokens[i].byte_offset == matches[i].start);
            assert(tokens[j].byte_offset == matches[j].start);
        }
        assert forall|i: int| 0 <= i < tokens.len() implies is_char_boundary(
            encode_utf8(content),
            tokens[i].byte_offset as int,
        ) by {
            assert(tokens[i].byte_offset == matches[i].start);
            assert(span_fits(matches[i], content));
        }
    }
}

/// Once a prefix of the matches has failed, the whole fails in the same way.
proof fn lemma_failure_persists(matches: Seq<WordMatchView>, k: int, document_len: nat)
    requires
        0 <= k <= matches.len(),
        tokens_of(matches.take(k), document_len) is Err,
    ensures
        tokens_of(matches, document_len) == tokens_of(matches.take(k), document_len),
    decreases matches.len() - k,
{
    if k == matches.len() {
        assert(matches.take(k) =~= matches);
    } else {
        assert(matches.take(k + 1).drop_last() =~= matches.take(k));
        lemma_failure_persists(matches, k + 1, document_len);
    }
}

/// Makes a token of a decoded word text and the start of its match, for a
/// document of `document_len` bytes.
///
/// Gives the token exactly when there is decoded text and the start is the
/// index of a byte of the document; `OcrError::EntityDecode` when there is
/// no decoded text; `OcrError::Engine` when there is, but the start lies
/// outside the document.
pub fn assemble_token(decoded: Option<String>, start: usize, document_len: usize) -> (r: Result<
    Token,
    OcrError,
>)
    ensures
        token_outcome_view(r) == assembled(
            optional_text(decoded),
            start as nat,
            document_len as nat,
        ),
{
    match decoded {
        None => Err(OcrError::EntityDecode),
        Some(text) => if start < document_len {
            Ok(Token { text, byte_offset: start })
        } else {
            Err(OcrError::Engine)
        },
    }
}

/// Turns one match of a word pattern into a token, for a document of
/// `document_len` bytes: decodes the entities in the match's text and pairs
/// the result with the start of the match.
pub fn token_from_match(found: &WordMatch, document_len: usize) -> (r: Result<Token, OcrError>)
    ensures
        token_outcome_view(r) == token_of(found@, document_len as nat),
{
    match &found.text {
        None => Err(OcrError::Engine),
        Some(raw) => {
            let decoded = match decode_html_entities(raw.as_str()) {
                Ok(text) => Some(text),
                Err(_) => None,
            };
            assemble_token(decoded, found.start, document_len)
        },
    }
}

/// Turns the matches of a word pattern into tokens, for a document of
/// `document_len` bytes.
///
/// Succeeds exactly when every match yields a token, and then gives one
/// token per match, in the same order. Otherwise gives the error of the
/// first match that yields none: `OcrError::EntityDecode` where its text
/// does not decode, `OcrError::Engine` where it has no text or begins
/// outside the document.
pub fn tokens_from_matches(matches: &Vec<WordMatch>, document_len: usize) -> (r: Result<
    Vec<Token>,
    OcrError,
>)
    ensures
        outcome_view(r) == tokens_of(match_views(matches@), document_len as nat),
        r matches Ok(tokens) ==> tokens@.len() == matches@.len(),
{
    let ghost views = match_views(matches@);
    let mut tokens: Vec<Token> = Vec::new();
    let mut i: usize = 0;
    proof {
        assert(token_views(tokens@) =~= Seq::empty());
    }
    while i < matches.len()
        invariant
            i <= matches.len(),
            tokens@.len() == i,
            views == match_views(matches@),
            tokens_of(views.take(i as int), document_len as nat) == Ok::<
                Seq<TokenView>,
                OcrError,
            >(token_views(tokens@)),
        decreases matches.len() - i,
    {
        proof {
            assert(views.take(i + 1).drop_last() =~= views.take(i as int));
        }
        match token_from_match(&matches[i], document_len) {
            Err(e) => {
                proof {
                    lemma_failure_persists(views, i + 1, document_len as nat);
                }
                return Err(e);
            },
            Ok(token) => {
                proof {
                    assert(token_views(tokens@).push(token@) =~= token_views(tokens@.push(token)));
                }
                tokens.push(token);
            },
        }
        i += 1;
    }
    proof {
        assert(views.take(i as int) =~= views);
    }
    Ok(tokens)
}

/// Extracts the words of a document of the given dialect, in the order in
/// which they lie in the document.
///
/// The result is what the content yields under the dialect's word pattern:
/// one token per match, with the decoded text and the byte offset at which
/// the match begins; `OcrError::EntityDecode` where the text of a match does
/// not decode; `OcrError::Engine` where the engine does not accept the
/// pattern or reports a match without text or outside the document. The
/// matches do not overlap; the tokens lie within the document, on character
/// boundaries, at strictly increasing offsets.
pub fn extract(document: &str, dialect: Dialect) -> (r: Result<Vec<Token>, OcrError>)
    ensures
        outcome_view(r) == extraction(document@, dialect),
        r matches Err(e) ==> e == OcrError::EntityDecode || e == OcrError::Engine,
        r matches Ok(tokens) ==> tokens@.len() == word_matches(document@, dialect).len(),
        r matches Ok(tokens) ==> well_placed(word_matches(document@, dialect), document@),
        r matches Ok(tokens) ==> within_document(token_views(tokens@), byte_length(document@)),
        r matches Ok(tokens) ==> in_document_order(token_views(tokens@)),
        r matches Ok(tokens) ==> on_char_boundaries(token_views(tokens@), document@),
{
    match find_words(dialect.word_pattern(), TEXT_GROUP, document) {
        Err(_) => Err(OcrError::Engine),
        Ok(matches) => {
            let r = tokens_from_matches(&matches, byte_len(document));
            proof {
                if r is Ok {
                    lemma_tokens_keep_offsets(
                        match_views(matches@),
                        document@,
                        byte_length(document@),
                    );
                } else {
                    lemma_extraction_failures(match_views(matches@), byte_length(document@));
                }
            }
            r
        },
    }
}

} // verus!
