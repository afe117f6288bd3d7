//! The token tape: what the outside parser makes of a file, read into plain
//! values.
//!
//! The parser lays a file out as a flat list of tokens. A container token
//! names the place of its end token, and the end token names the place of
//! its container. This module reads the tape token by token; the tree is
//! built from the plain tokens in `tree`.
use vstd::prelude::*;
use jomini::text::Operator as TapeOperator;
use jomini::{TextTape, TextToken, Windows1252Encoding};
use crate::document::Operator;

verus! {

/// The kind of a token.
#[derive(Clone, Copy, Debug, PartialEq, Eq, Structural)]
pub enum TokenKind {
    Array,
    Object,
    MixedContainer,
    Unquoted,
    Quoted,
    Parameter,
    UndefinedParameter,
    Operator,
    End,
    Header,
}

/// One token of the tape, as plain values. `end` is the place that an array,
/// an object or an end token names; `mixed` is the flag of an array or an
/// object; `op` is the operator of an operator token; `bytes` are the raw
/// bytes of a scalar token and `text` is what they decode to.
#[derive(Debug, PartialEq, Eq)]
pub struct Token {
    pub kind: TokenKind,
    pub end: Option<usize>,
    pub mixed: Option<bool>,
    pub op: Option<Operator>,
    pub bytes: Option<Vec<u8>>,
    pub text: String,
}

/// The mathematical model of a [`Token`].
pub struct TokenView {
    pub kind: TokenKind,
    pub end: Option<usize>,
    pub mixed: Option<bool>,
    pub op: Option<Operator>,
    pub bytes: Option<Seq<u8>>,
    pub text: Seq<char>,
}

/// The parsed tape of the outside parser.
#[verifier::external_type_specification]
#[verifier::external_body]
pub struct ExTextTape<'a>(TextTape<'a>);

/// The error of the outside parser.
#[verifier::external_type_specification]
#[verifier::external_body]
pub struct ExTapeError(jomini::Error);

/// What the parts of a token that the tape itself holds are: all but the
/// decoded text.
pub struct RawToken {
    pub kind: TokenKind,
    pub end: Option<usize>,
    pub mixed: Option<bool>,
    pub op: Option<Operator>,
    pub bytes: Option<Seq<u8>>,
}

/// The tokens that a tape holds, in order.
pub uninterp spec fn tape_tokens(tape: TextTape) -> Seq<RawToken>;

/// The tokens that `jomini::TextTape::from_slice` makes of a file, where it
/// accepts the file.
pub uninterp spec fn parsed_tokens(data: Seq<u8>) -> Option<Seq<RawToken>>;

/// The text that `jomini::Windows1252Encoding::decode` makes of raw bytes.
pub uninterp spec fn windows1252_text(bytes: Seq<u8>) -> Seq<char>;

/// Trusted: `jomini::TextTape::from_slice`. The contract names the tokens of
/// the tape that comes back: they depend on the bytes alone. The function
/// fails exactly where the name holds nothing.
#[verifier::external_body]
fn read_tape(data: &[u8]) -> (tape: Result<TextTape<'_>, jomini::Error>)
    ensures
        tape is Ok <==> parsed_tokens(data@) is Some,
        tape matches Ok(t) ==> parsed_tokens(data@) == Some(tape_tokens(t)),
{
    TextTape::from_slice(data)
}

/// Trusted: `jomini::TextTape::tokens`, for the number of tokens.
#[verifier::external_body]
fn token_count(tape: &TextTape) -> (count: usize)
    ensures
        count == tape_tokens(*tape).len(),
{
    tape.tokens().len()
}

/// Trusted: `jomini::TextTape::tokens`, for the kind of the token at `i`:
/// one arm for each variant of the outside token.
#[verifier::external_body]
fn token_kind(tape: &TextTape, i: usize) -> (kind: TokenKind)
    requires
        i < tape_tokens(*tape).len(),
    ensures
        kind == tape_tokens(*tape)[i as int].kind,
{
    match tape.tokens()[i] {
        TextToken::Array { .. } => TokenKind::Array,
        TextToken::Object { .. } => TokenKind::Object,
        TextToken::MixedContainer => TokenKind::MixedContainer,
        TextToken::Unquoted(_) => TokenKind::Unquoted,
        TextToken::Quoted(_) => TokenKind::Quoted,
        TextToken::Parameter(_) => TokenKind::Parameter,
        TextToken::UndefinedParameter(_) => TokenKind::UndefinedParameter,
        TextToken::Operator(_) => TokenKind::Operator,
        TextToken::End(_) => TokenKind::End,
        TextToken::Header(_) => TokenKind::Header,
    }
}

/// Trusted: `jomini::TextTape::tokens`, for the place that the token at `i`
/// names, where it is an array, an object or an end token.
#[verifier::external_body]
fn token_end(tape: &TextTape, i: usize) -> (end: Option<usize>)
    requires
        i < tape_tokens(*tape).len(),
    ensures
        end == tape_tokens(*tape)[i as int].end,
{
    match tape.tokens()[i] {
        TextToken::Array { end, .. } => Some(end),
        TextToken::Object { end, .. } => Some(end),
        TextToken::End(start) => Some(start),
        _ => None,
    }
}

/// Trusted: `jomini::TextTape::tokens`, for the mixed flag of the token at
/// `i`, where it is an array or an object.
#[verifier::external_body]
fn token_mixed(tape: &TextTape, i: usize) -> (mixed: Option<bool>)
    requires
        i < tape_tokens(*tape).len(),
    ensures
        mixed == tape_tokens(*tape)[i as int].mixed,
{
    match tape.tokens()[i] {
        TextToken::Array { mixed, .. } => Some(mixed),
        TextToken::Object { mixed, .. } => Some(mixed),
        _ => None,
    }
}

/// Trusted: `jomini::TextTape::tokens`, for the operator of the token at
/// `i`, where it is an operator token: one arm for each outside operator.
#[verifier::external_body]
fn token_operator(tape: &TextTape, i: usize) -> (op: Option<Operator>)
    requires
        i < tape_tokens(*tape).len(),
    ensures
        op == tape_tokens(*tape)[i as int].op,
{
    match tape.tokens()[i] {
        TextToken::Operator(TapeOperator::LessThan) => Some(Operator::LessThan),
        TextToken::Operator(TapeOperator::LessThanEqual) => Some(Operator::LessThanEqual),
        TextToken::Operator(TapeOperator::GreaterThan) => Some(Operator::GreaterThan),
        TextToken::Operator(TapeOperator::GreaterThanEqual) => Some(Operator::GreaterThanEqual),
        TextToken::Operator(TapeOperator::NotEqual) => Some(Operator::NotEqual),
        TextToken::Operator(TapeOperator::Exact) => Some(Operator::Exact),
        TextToken::Operator(TapeOperator::Equal) => Some(Operator::Equal),
        TextToken::Operator(TapeOperator::Exists) => Some(Operator::Exists),
        _ => None,
    }
}

/// Trusted: `jomini::TextToken::as_scalar` on the token at `i`, for the raw
/// bytes of a scalar token.
#[verifier::external_body]
fn token_bytes(tape: &TextTape, i: usize) -> (bytes: Option<Vec<u8>>)
    requires
        i < tape_tokens(*tape).len(),
    ensures
        bytes is Some <==> tape_tokens(*tape)[i as int].bytes is Some,
        bytes matches Some(b) ==> tape_tokens(*tape)[i as int].bytes == Some(b@),
{
    tape.tokens()[i].as_scalar().map(|s| s.as_bytes().to_vec())
}

/// Trusted: `jomini::Windows1252Encoding::decode`. The contract names the
/// result: it depends on the bytes alone.
#[verifier::external_body]
fn decode(bytes: &[u8]) -> (text: String)
    ensures
        text@ == windows1252_text(bytes@),
{
    Windows1252Encoding::decode(bytes).into_owned()
}

/// The text of an optional run of raw bytes: empty where there is none.
pub open spec fn text_of(bytes: Option<Seq<u8>>) -> Seq<char> {
    match bytes {
        Some(b) => windows1252_text(b),
        None => Seq::empty(),
    }
}

/// A token of the tape together with the text that its bytes decode to.
pub open spec fn token_of(raw: RawToken) -> TokenView {
    TokenView {
        kind: raw.kind,
        end: raw.end,
        mixed: raw.mixed,
        op: raw.op,
        bytes: raw.bytes,
        text: text_of(raw.bytes),
    }
}

/// The tokens of a file, each with its text, where the outside parser
/// accepts the file.
pub open spec fn tokens_of(data: Seq<u8>) -> Option<Seq<TokenView>> {
    match parsed_tokens(data) {
        Some(raw) => Some(raw.map_values(|r: RawToken| token_of(r))),
        None => None,
    }
}

impl View for Token {
    type V = TokenView;

    open spec fn view(&self) -> TokenView {
        TokenView {
            kind: self.kind,
            end: self.end,
            mixed: self.mixed,
            op: self.op,
            bytes: match self.bytes {
                Some(b) => Some(b@),
                None => None,
            },
            text: self.text@,
        }
    }
}

/// The models of a list of tokens, in order.
pub open spec fn view_tokens(tokens: Seq<Token>) -> Seq<TokenView> {
    tokens.map_values(|t: Token| t@)
}

/// Parses a file with the outside parser and reads its tape into plain
/// tokens; nothing where the parser rejects the file.
pub fn read_tokens(data: &[u8]) -> (tokens: Option<Vec<Token>>)
    ensures
        tokens is Some <==> tokens_of(data@) is Some,
        tokens matches Some(t) ==> tokens_of(data@) == Some(view_tokens(t@)),
{
    match read_tape(data) {
        Err(_) => None,
        Ok(tape) => {
            let count = token_count(&tape);
            let ghost raw = tape_tokens(tape);
            let mut tokens: Vec<Token> = Vec::new();
            let mut i: usize = 0;
            while i < count
                invariant
                    i <= count,
                    count == raw.len(),
                    raw == tape_tokens(tape),
                    tokens@.len() == i,
                    forall|j: int| 0 <= j < i ==> (#[trigger] tokens@[j])@ == token_of(raw[j]),
                decreases count - i,
            {
                let bytes = token_bytes(&tape, i);
                let text = match &bytes {
                    Some(b) => decode(b.as_slice()),
                    None => String::new(),
                };
                tokens.push(
                    Token {
                        kind: token_kind(&tape, i),
                        end: token_end(&tape, i),
                        mixed: token_mixed(&tape, i),
                        op: token_operator(&tape, i),
                        bytes,
                        text,
                    },
                );
                i += 1;
            }
            assert(view_tokens(tokens@) =~= raw.map_values(|r: RawToken| token_of(r)));
            Some(tokens)
        },
    }
}

} // verus!
