//! The lexical grammar, as functions on sequences of characters.
//!
//! Positions are indices into the text, counted in characters. A lexeme is
//! the stretch of text between a start and an end position, the start
//! included and the end not.

use vstd::prelude::*;
use crate::token::{keyword_kind, TokenType};

verus! {

/// The three classes of characters of which the scanner consumes whole runs.
pub enum CharClass {
    Space,
    Letter,
    Digit,
}

/// Space, tab, newline and carriage return separate lexemes.
pub open spec fn is_space(c: char) -> bool {
    c == ' ' || c == '\t' || c == '\n' || c == '\r'
}

/// An ASCII letter or the underscore.
pub open spec fn is_letter(c: char) -> bool {
    ('a' <= c && c <= 'z') || ('A' <= c && c <= 'Z') || c == '_'
}

/// An ASCII digit.
pub open spec fn is_digit(c: char) -> bool {
    '0' <= c && c <= '9'
}

pub open spec fn in_class(class: CharClass, c: char) -> bool {
    match class {
        CharClass::Space => is_space(c),
        CharClass::Letter => is_letter(c),
        CharClass::Digit => is_digit(c),
    }
}

/// The kind of a punctuation mark that is a lexeme by itself whatever
/// follows it.
pub open spec fn punctuation_kind(c: char) -> Option<TokenType> {
    if c == '<' {
        Some(TokenType::Lt)
    } else if c == '>' {
        Some(TokenType::Gt)
    } else if c == '+' {
        Some(TokenType::Plus)
    } else if c == '-' {
        Some(TokenType::Minus)
    } else if c == '/' {
        Some(TokenType::Slash)
    } else if c == '*' {
        Some(TokenType::Asterisk)
    } else if c == '(' {
        Some(TokenType::LParen)
    } else if c == ')' {
        Some(TokenType::RParen)
    } else if c == '{' {
        Some(TokenType::LBrace)
    } else if c == '}' {
        Some(TokenType::RBrace)
    } else if c == ',' {
        Some(TokenType::Comma)
    } else if c == ';' {
        Some(TokenType::Semicolon)
    } else {
        None
    }
}

/// Whether a lexeme other than `Illegal` can start with `c`.
pub open spec fn is_recognized(c: char) -> bool {
    c == '=' || c == '!' || punctuation_kind(c) is Some || is_letter(c) || is_digit(c)
}

/// Where the longest run of characters of `class` that starts at `from`
/// ends: the first position at or after `from` that holds a character of
/// another class, or the length of the text.
pub open spec fn run_end(class: CharClass, text: Seq<char>, from: int) -> int
    decreases text.len() - from,
{
    if 0 <= from < text.len() && in_class(class, text[from]) {
        run_end(class, text, from + 1)
    } else {
        from
    }
}

/// The kind of the lexeme that starts at `start`, and the position where it
/// ends.
pub open spec fn lexeme_at(text: Seq<char>, start: int) -> (TokenType, int)
    recommends
        0 <= start < text.len(),
        !is_space(text[start]),
{
    let c = text[start];
    let followed_by_equals = start + 1 < text.len() && text[start + 1] == '=';
    if c == '=' {
        if followed_by_equals {
            (TokenType::Eq, start + 2)
        } else {
            (TokenType::Assign, start + 1)
        }
    } else if c == '!' {
        if followed_by_equals {
            (TokenType::NoEq, start + 2)
        } else {
            (TokenType::Bang, start + 1)
        }
    } else if punctuation_kind(c) is Some {
        (punctuation_kind(c).unwrap(), start + 1)
    } else if is_letter(c) {
        let end = run_end(CharClass::Letter, text, start);
        (keyword_kind(text.subrange(start, end)), end)
    } else if is_digit(c) {
        (TokenType::Int, run_end(CharClass::Digit, text, start))
    } else {
        (TokenType::Illegal, start + 1)
    }
}

/// One lexeme in a text: its kind, and the positions where it starts and
/// ends.
pub struct Span {
    pub kind: TokenType,
    pub start: int,
    pub end: int,
}

/// The first lexeme at or after `from`, or `None` where nothing but
/// whitespace is left.
pub open spec fn scan(text: Seq<char>, from: int) -> Option<Span> {
    let start = run_end(CharClass::Space, text, from);
    if start < text.len() {
        let (kind, end) = lexeme_at(text, start);
        Some(Span { kind, start, end })
    } else {
        None
    }
}

/// A run starts where it is asked for, ends within the text, holds only
/// characters of its class, and is not followed by one.
pub proof fn lemma_run_end(class: CharClass, text: Seq<char>, from: int)
    requires
        0 <= from <= text.len(),
    ensures
        from <= run_end(class, text, from) <= text.len(),
        forall|k: int|
            from <= k < run_end(class, text, from) ==> in_class(class, #[trigger] text[k]),
        run_end(class, text, from) < text.len() ==> !in_class(
            class,
            text[run_end(class, text, from)],
        ),
    decreases text.len() - from,
{
    if from < text.len() && in_class(class, text[from]) {
        lemma_run_end(class, text, from + 1);
    }
}

/// A lexeme is not empty, ends within the text, and holds no whitespace; its
/// kind is never that of the end of the input.
pub proof fn lemma_lexeme_at(text: Seq<char>, start: int)
    requires
        0 <= start < text.len(),
        !is_space(text[start]),
    ensures
        start < lexeme_at(text, start).1 <= text.len(),
        lexeme_at(text, start).0 != TokenType::Eof,
        forall|k: int| start <= k < lexeme_at(text, start).1 ==> !is_space(#[trigger] text[k]),
{
    lemma_run_end(CharClass::Letter, text, start);
    lemma_run_end(CharClass::Digit, text, start);
}

/// What `scan` finds lies within the text, after any whitespace at `from`.
pub proof fn lemma_scan(text: Seq<char>, from: int)
    requires
        0 <= from <= text.len(),
    ensures
        match scan(text, from) {
            Some(span) => {
                &&& from <= span.start < span.end <= text.len()
                &&& span.kind != TokenType::Eof
                &&& span.start == run_end(CharClass::Space, text, from)
                &&& forall|k: int| from <= k < span.start ==> is_space(#[trigger] text[k])
                &&& forall|k: int| span.start <= k < span.end ==> !is_space(#[trigger] text[k])
            },
            None => forall|k: int| from <= k < text.len() ==> is_space(#[trigger] text[k]),
        },
{
    lemma_run_end(CharClass::Space, text, from);
    let start = run_end(CharClass::Space, text, from);
    if start < text.len() {
        lemma_lexeme_at(text, start);
    }
}

/// The tokens that a scan from `from` to the end of the text gives, in
/// order: each with its kind and its lexeme.
pub open spec fn tokens_from(text: Seq<char>, from: int) -> Seq<(TokenType, Seq<char>)>
    decreases text.len() - from,
    when 0 <= from <= text.len()
    via tokens_from_decreases
{
    match scan(text, from) {
        Some(span) => seq![(span.kind, text.subrange(span.start, span.end))] + tokens_from(
            text,
            span.end,
        ),
        None => Seq::empty(),
    }
}

#[via_fn]
proof fn tokens_from_decreases(text: Seq<char>, from: int) {
    lemma_scan(text, from);
}

/// The tokens of a whole text.
pub open spec fn tokens(text: Seq<char>) -> Seq<(TokenType, Seq<char>)> {
    tokens_from(text, 0)
}

} // verus!
