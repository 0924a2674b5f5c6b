//! Tokens, their kinds, and the table of reserved words.

use vstd::prelude::*;
use vstd::string::*;

verus! {

/// What a lexeme is.
#[derive(Debug, Clone, Copy, PartialEq, Eq, Structural)]
pub enum TokenType {
    Illegal,
    Eof,
    // Identifiers + Literals
    Ident,
    Int,
    // Operators
    Assign,
    Plus,
    Minus,
    Bang,
    Asterisk,
    Slash,
    Lt,
    Gt,
    // Comparison operators
    Eq,
    NoEq,
    // Delimiters
    Comma,
    Semicolon,
    LParen,
    RParen,
    LBrace,
    RBrace,
    // Keywords
    Function,
    Let,
    If,
    Else,
    True,
    False,
    Return,
}

pub const BANG: char = '!';

pub const ASSIGN: char = '=';

pub const PLUS: char = '+';

pub const MINUS: char = '-';

pub const SLASH: char = '/';

pub const ASTERISK: char = '*';

pub const LPARAN: char = '(';

pub const RPARAN: char = ')';

pub const LBRACE: char = '{';

pub const RBRACE: char = '}';

pub const COMMA: char = ',';

pub const SEMICOLON: char = ';';

pub const LT: char = '<';

pub const GT: char = '>';

/// A lexeme together with its kind.
#[derive(Debug, PartialEq, Eq)]
pub struct Token {
    pub ty: TokenType,
    pub lit: String,
}

impl View for Token {
    type V = (TokenType, Seq<char>);

    /// The kind, and the lexeme as a sequence of characters.
    open spec fn view(&self) -> (TokenType, Seq<char>) {
        (self.ty, self.lit@)
    }
}

impl Token {
    pub fn new(ty: TokenType, lit: String) -> (token: Self)
        ensures
            token.ty == ty,
            token.lit == lit,
    {
        Self { ty, lit }
    }
}

/// The kind that the table of reserved words gives a word: its keyword where
/// the word is one of the seven, letter for letter, and `Ident` for any other.
pub open spec fn keyword_kind(word: Seq<char>) -> TokenType {
    if word == "fn"@ {
        TokenType::Function
    } else if word == "let"@ {
        TokenType::Let
    } else if word == "if"@ {
        TokenType::If
    } else if word == "else"@ {
        TokenType::Else
    } else if word == "true"@ {
        TokenType::True
    } else if word == "false"@ {
        TokenType::False
    } else if word == "return"@ {
        TokenType::Return
    } else {
        TokenType::Ident
    }
}

/// Whether two strings hold the same characters.
fn same_text(left: &str, right: &str) -> (same: bool)
    ensures
        same == (left@ == right@),
{
    let n: usize = left.unicode_len();
    if right.unicode_len() != n {
        return false;
    }
    let mut i: usize = 0;
    while i < n
        invariant
            n == left@.len(),
            n == right@.len(),
            i <= n,
            forall|k: int| 0 <= k < i ==> left@[k] == right@[k],
        decreases n - i,
    {
        if left.get_char(i) != right.get_char(i) {
            return false;
        }
        i += 1;
    }
    assert(left@ =~= right@);
    true
}

/// Looks a word up in the table of reserved words.
pub fn lookup_ident(ident: &str) -> (kind: TokenType)
    ensures
        kind == keyword_kind(ident@),
{
    if same_text(ident, "fn") {
        TokenType::Function
    } else if same_text(ident, "let") {
        TokenType::Let
    } else if same_text(ident, "if") {
        TokenType::If
    } else if same_text(ident, "else") {
        TokenType::Else
    } else if same_text(ident, "true") {
        TokenType::True
    } else if same_text(ident, "false") {
        TokenType::False
    } else if same_text(ident, "return") {
        TokenType::Return
    } else {
        TokenType::Ident
    }
}

} // verus!
