//! What holds of every scan.

use vstd::prelude::*;
use crate::grammar::{
    in_class, is_recognized, is_space, lemma_scan, run_end, scan, tokens, tokens_from, CharClass,
};
use crate::lexer::Lexer;
use crate::token::TokenType;

verus! {

/// The lexemes of a sequence of tokens, written one after the other.
pub open spec fn joined(tokens: Seq<(TokenType, Seq<char>)>) -> Seq<char>
    decreases tokens.len(),
{
    if tokens.len() == 0 {
        Seq::empty()
    } else {
        tokens[0].1 + joined(tokens.drop_first())
    }
}

/// Holds of every character but whitespace.
pub open spec fn not_space() -> spec_fn(char) -> bool {
    |c: char| !is_space(c)
}

/// A text with its whitespace taken out.
pub open spec fn without_space(text: Seq<char>) -> Seq<char> {
    text.filter(not_space())
}

proof fn lemma_filter_drops_all(text: Seq<char>, keep: spec_fn(char) -> bool)
    requires
        forall|k: int| 0 <= k < text.len() ==> !keep(#[trigger] text[k]),
    ensures
        text.filter(keep) == Seq::<char>::empty(),
    decreases text.len(),
{
    reveal(Seq::filter);
    if text.len() > 0 {
        lemma_filter_drops_all(text.drop_last(), keep);
    }
}

proof fn lemma_filter_keeps_all(text: Seq<char>, keep: spec_fn(char) -> bool)
    requires
        forall|k: int| 0 <= k < text.len() ==> keep(#[trigger] text[k]),
    ensures
        text.filter(keep) == text,
    decreases text.len(),
{
    reveal(Seq::filter);
    if text.len() > 0 {
        lemma_filter_keeps_all(text.drop_last(), keep);
        assert(text.drop_last().push(text.last()) =~= text);
    }
}

/// The end of a run is the only position that a maximal run can end at: one
/// that is reached through characters of the class alone and that holds no
/// such character itself.
pub proof fn lemma_run_is_maximal(class: CharClass, text: Seq<char>, from: int, end: int)
    requires
        0 <= from <= end <= text.len(),
        forall|k: int| from <= k < end ==> in_class(class, #[trigger] text[k]),
        end < text.len() ==> !in_class(class, text[end]),
    ensures
        run_end(class, text, from) == end,
    decreases end - from,
{
    if from < end {
        lemma_run_is_maximal(class, text, from + 1, end);
    }
}

/// Two sessions that stand at the same place in the same text find the same
/// lexeme next and have the same tokens left. Two fresh sessions over one
/// text are such a pair, so they hand out the same tokens call by call.
pub proof fn lemma_scanning_is_deterministic(first: &Lexer, second: &Lexer)
    requires
        first.wf(),
        second.wf(),
        first.source() == second.source(),
        first.cursor() == second.cursor(),
    ensures
        scan(first.source(), first.cursor()) == scan(second.source(), second.cursor()),
        first.remaining() == second.remaining(),
{
}

/// The lexemes of the tokens scanned from `from` on, written one after the
/// other, are the text from `from` on without its whitespace: every other
/// character is in exactly one token, in the order of the text.
pub proof fn lemma_tokens_cover_from(text: Seq<char>, from: int)
    requires
        0 <= from <= text.len(),
    ensures
        joined(tokens_from(text, from)) == without_space(text.subrange(from, text.len() as int)),
    decreases text.len() - from,
{
    lemma_scan(text, from);
    let rest = text.subrange(from, text.len() as int);
    match scan(text, from) {
        None => {
            lemma_filter_drops_all(rest, not_space());
        },
        Some(span) => {
            let gap = text.subrange(from, span.start);
            let lexeme = text.subrange(span.start, span.end);
            let tail = text.subrange(span.end, text.len() as int);
            assert(rest =~= gap + lexeme + tail);
            Seq::filter_distributes_over_add(gap + lexeme, tail, not_space());
            Seq::filter_distributes_over_add(gap, lexeme, not_space());
            lemma_filter_drops_all(gap, not_space());
            lemma_filter_keeps_all(lexeme, not_space());
            lemma_tokens_cover_from(text, span.end);
            assert(tokens_from(text, from).drop_first() =~= tokens_from(text, span.end));
            assert(without_space(rest) =~= lexeme + without_space(tail));
        },
    }
}

/// The lexemes of a text's tokens, written one after the other, are the text
/// without its whitespace.
pub proof fn lemma_tokens_cover_text(text: Seq<char>)
    ensures
        joined(tokens(text)) == without_space(text),
{
    lemma_tokens_cover_from(text, 0);
    assert(text.subrange(0, text.len() as int) =~= text);
}

/// A scan from `from` on gives at most as many tokens as there are
/// characters from `from` on.
pub proof fn lemma_token_count_from(text: Seq<char>, from: int)
    requires
        0 <= from <= text.len(),
    ensures
        tokens_from(text, from).len() <= text.len() - from,
    decreases text.len() - from,
{
    lemma_scan(text, from);
    if let Some(span) = scan(text, from) {
        lemma_token_count_from(text, span.end);
    }
}

/// A session has at most as many tokens left as there are characters from
/// its cursor on. Each call of `next_token` that returns a token leaves one
/// fewer, and the call made when none is left returns `None`: so the end of
/// the input is reported after at most as many calls as the text is long.
pub proof fn lemma_calls_left_are_bounded(lexer: &Lexer)
    requires
        lexer.wf(),
    ensures
        lexer.remaining().len() <= lexer.source().len() - lexer.cursor(),
{
    lexer.lemma_cursor_in_text();
    lemma_token_count_from(lexer.source(), lexer.cursor());
}

/// A text has at most as many tokens as characters.
pub proof fn lemma_token_count(text: Seq<char>)
    ensures
        tokens(text).len() <= text.len(),
{
    lemma_token_count_from(text, 0);
}

/// A text of one character that starts no lexeme and is no whitespace gives
/// one `Illegal` token that holds the character, and nothing after it.
pub proof fn lemma_lone_unrecognized_char(c: char)
    requires
        !is_space(c),
        !is_recognized(c),
    ensures
        tokens(seq![c]) == seq![(TokenType::Illegal, seq![c])],
{
    let text = seq![c];
    assert(text.subrange(0, 1) =~= text);
    assert(tokens_from(text, 1) =~= Seq::empty());
    assert(tokens_from(text, 0) =~= seq![(TokenType::Illegal, text)]);
}

} // verus!
