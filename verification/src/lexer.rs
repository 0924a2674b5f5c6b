//! The scanner: a cursor over a source text that hands out one token per
//! call.

use vstd::prelude::*;
use vstd::string::*;
use crate::grammar::{
    is_digit, is_letter, lemma_run_end, lemma_scan, run_end, scan, tokens, tokens_from, CharClass,
};
use crate::token::{lookup_ident, Token, TokenType};

verus! {

/// The position after `position`. A text has no position past `usize::MAX`,
/// so there the result stays.
pub open spec fn one_past(position: usize) -> usize {
    if position < usize::MAX {
        (position + 1) as usize
    } else {
        usize::MAX
    }
}

/// A scanning session over one source text.
pub struct Lexer {
    input: String,
    /// The position of the character under the cursor.
    position: usize,
    /// The position that is read next: one past `position`.
    read_position: usize,
    /// The character under the cursor, or `None` past the end of the text.
    ch: Option<char>,
}

impl Lexer {
    /// The text that is scanned.
    pub closed spec fn source(&self) -> Seq<char> {
        self.input@
    }

    /// The position of the character that the next lexeme is looked for at.
    pub closed spec fn cursor(&self) -> int {
        self.position as int
    }

    /// The cursor lies within the text or at its end, the read position is
    /// one past it, and the character held is the one under the cursor.
    pub closed spec fn wf(&self) -> bool {
        &&& self.input@.len() <= usize::MAX
        &&& self.position <= self.input@.len()
        &&& self.read_position == one_past(self.position)
        &&& self.ch == if self.position < self.input@.len() {
            Some(self.input@[self.position as int])
        } else {
            None::<char>
        }
    }

    /// The tokens that the session has yet to hand out.
    pub open spec fn remaining(&self) -> Seq<(TokenType, Seq<char>)> {
        tokens_from(self.source(), self.cursor())
    }

    /// The cursor of a well-formed session never leaves the text.
    pub proof fn lemma_cursor_in_text(&self)
        requires
            self.wf(),
        ensures
            0 <= self.cursor() <= self.source().len(),
    {
    }

    /// Starts a session over `input`, with the cursor on its first character.
    pub fn new(input: String) -> (lexer: Self)
        ensures
            lexer.wf(),
            lexer.source() == input@,
            lexer.cursor() == 0,
            lexer.remaining() == tokens(input@),
    {
        let mut lexer = Self { input, position: 0, read_position: 0, ch: None };
        lexer.read_char();
        lexer
    }

    /// Moves the cursor to the read position and the read position one
    /// further, and loads the character that the cursor is now on.
    fn read_char(&mut self)
        ensures
            final(self).input == old(self).input,
            final(self).position == old(self).read_position,
            final(self).read_position == one_past(old(self).read_position),
            final(self).ch == if old(self).read_position < old(self).input@.len() {
                Some(old(self).input@[old(self).read_position as int])
            } else {
                None::<char>
            },
            final(self).position <= final(self).input@.len() ==> final(self).wf(),
    {
        if self.read_position >= self.input.as_str().unicode_len() {
            self.ch = None;
        } else {
            self.ch = Some(self.input.as_str().get_char(self.read_position));
        }
        self.position = self.read_position;
        self.read_position = self.read_position.saturating_add(1);
    }

    /// The character after the one under the cursor, if there is one.
    fn peek_char(&self) -> (next: Option<char>)
        requires
            self.wf(),
        ensures
            next == if self.position + 1 < self.input@.len() {
                Some(self.input@[self.position + 1])
            } else {
                None::<char>
            },
    {
        if self.read_position >= self.input.as_str().unicode_len() {
            None
        } else {
            Some(self.input.as_str().get_char(self.read_position))
        }
    }

    /// Skips whitespace, then hands out the lexeme under the cursor and moves
    /// the cursor past it. `None` says that the text is exhausted.
    pub fn next_token(&mut self) -> (result: Option<Token>)
        requires
            old(self).wf(),
        ensures
            final(self).wf(),
            final(self).source() == old(self).source(),
            match scan(old(self).source(), old(self).cursor()) {
                Some(span) => {
                    &&& result is Some
                    &&& result.unwrap()@ == (
                        span.kind,
                        old(self).source().subrange(span.start, span.end),
                    )
                    &&& result.unwrap().lit@.len() > 0
                    &&& final(self).cursor() == span.end
                },
                None => result is None && final(self).cursor() == old(self).source().len(),
            },
            old(self).remaining() == match result {
                Some(token) => seq![token@] + final(self).remaining(),
                None => Seq::empty(),
            },
            result is None <==> old(self).remaining().len() == 0,
            result is None ==> final(self).remaining().len() == 0,
    {
        let ghost text = self.input@;
        self.skip_white_space();
        proof {
            lemma_scan(text, old(self).cursor());
            lemma_run_end(CharClass::Letter, text, self.position as int);
            lemma_run_end(CharClass::Digit, text, self.position as int);
        }
        if let Some(ch) = self.ch {
            let token = match ch {
                '<' => self.new_token(TokenType::Lt),
                '>' => self.new_token(TokenType::Gt),
                '=' => {
                    if Some('=') == self.peek_char() {
                        self.read_char();
                        proof {
                            reveal_strlit("==");
                            assert("=="@ =~= text.subrange(self.position - 1, self.position + 1));
                        }
                        Token::new(TokenType::Eq, "==".to_string())
                    } else {
                        self.new_token(TokenType::Assign)
                    }
                },
                '!' => {
                    if Some('=') == self.peek_char() {
                        self.read_char();
                        proof {
                            reveal_strlit("!=");
                            assert("!="@ =~= text.subrange(self.position - 1, self.position + 1));
                        }
                        Token::new(TokenType::NoEq, "!=".to_string())
                    } else {
                        self.new_token(TokenType::Bang)
                    }
                },
                '+' => self.new_token(TokenType::Plus),
                '-' => self.new_token(TokenType::Minus),
                '/' => self.new_token(TokenType::Slash),
                '(' => self.new_token(TokenType::LParen),
                ')' => self.new_token(TokenType::RParen),
                '{' => self.new_token(TokenType::LBrace),
                '}' => self.new_token(TokenType::RBrace),
                ',' => self.new_token(TokenType::Comma),
                ';' => self.new_token(TokenType::Semicolon),
                '*' => self.new_token(TokenType::Asterisk),
                _ => {
                    if Self::is_letter(ch) {
                        let literal = self.read_identifier();
                        let token_type = lookup_ident(literal);
                        return Some(Token::new(token_type, literal.to_string()));
                    } else if Self::is_digit(ch) {
                        return Some(Token::new(TokenType::Int, self.read_number().to_string()));
                    } else {
                        let token = self.new_token(TokenType::Illegal);
                        self.read_char();
                        return Some(token);
                    }
                },
            };
            self.read_char();
            Some(token)
        } else {
            None
        }
    }

    /// Moves the cursor to the first character at or after it that is not
    /// whitespace.
    fn skip_white_space(&mut self)
        requires
            old(self).wf(),
        ensures
            final(self).wf(),
            final(self).input@ == old(self).input@,
            final(self).position == run_end(
                CharClass::Space,
                old(self).input@,
                old(self).position as int,
            ),
    {
        while self.ch.is_some() && (self.ch.unwrap() == ' ' || self.ch.unwrap() == '\t'
            || self.ch.unwrap() == '\n' || self.ch.unwrap() == '\r')
            invariant
                self.wf(),
                self.input@ == old(self).input@,
                run_end(CharClass::Space, self.input@, self.position as int) == run_end(
                    CharClass::Space,
                    old(self).input@,
                    old(self).position as int,
                ),
            decreases self.input@.len() - self.position,
        {
            self.read_char();
        }
    }

    /// The token of kind `ty` whose lexeme is the one character under the
    /// cursor.
    fn new_token(&self, ty: TokenType) -> (token: Token)
        requires
            self.wf(),
            self.position < self.input@.len(),
        ensures
            token@ == (ty, self.input@.subrange(self.position as int, self.position + 1)),
    {
        let text = self.input.as_str().substring_char(self.position, self.position + 1);
        Token::new(ty, text.to_string())
    }

    fn is_digit(ch: char) -> (yes: bool)
        ensures
            yes == is_digit(ch),
    {
        ch >= '0' && ch <= '9'
    }

    fn is_letter(ch: char) -> (yes: bool)
        ensures
            yes == is_letter(ch),
    {
        (ch >= 'a' && ch <= 'z') || (ch >= 'A' && ch <= 'Z') || ch == '_'
    }

    /// Consumes the run of letters that starts under the cursor and returns
    /// it.
    fn read_identifier(&mut self) -> (word: &str)
        requires
            old(self).wf(),
        ensures
            final(self).wf(),
            final(self).input@ == old(self).input@,
            final(self).position == run_end(
                CharClass::Letter,
                old(self).input@,
                old(self).position as int,
            ),
            word@ == old(self).input@.subrange(
                old(self).position as int,
                final(self).position as int,
            ),
    {
        let position: usize = self.position;
        while self.ch.is_some() && Self::is_letter(self.ch.unwrap())
            invariant
                self.wf(),
                self.input@ == old(self).input@,
                position <= self.position,
                run_end(CharClass::Letter, self.input@, self.position as int) == run_end(
                    CharClass::Letter,
                    old(self).input@,
                    position as int,
                ),
            decreases self.input@.len() - self.position,
        {
            self.read_char();
        }
        self.input.as_str().substring_char(position, self.position)
    }

    /// Consumes the run of digits that starts under the cursor and returns
    /// it.
    fn read_number(&mut self) -> (digits: &str)
        requires
            old(self).wf(),
        ensures
            final(self).wf(),
            final(self).input@ == old(self).input@,
            final(self).position == run_end(
                CharClass::Digit,
                old(self).input@,
                old(self).position as int,
            ),
            digits@ == old(self).input@.subrange(
                old(self).position as int,
                final(self).position as int,
            ),
    {
        let position: usize = self.position;
        while self.ch.is_some() && Self::is_digit(self.ch.unwrap())
            invariant
                self.wf(),
                self.input@ == old(self).input@,
                position <= self.position,
                run_end(CharClass::Digit, self.input@, self.position as int) == run_end(
                    CharClass::Digit,
                    old(self).input@,
                    position as int,
                ),
            decreases self.input@.len() - self.position,
        {
            self.read_char();
        }
        self.input.as_str().substring_char(position, self.position)
    }
}

} // verus!
