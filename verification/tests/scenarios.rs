use monkey_lexer::lexer::Lexer;
use monkey_lexer::token::{lookup_ident, Token, TokenType};

fn scan_all(input: &str) -> Vec<(TokenType, String)> {
    let mut lexer = Lexer::new(input.to_string());
    let mut found = Vec::new();
    let mut calls = 0usize;
    while let Some(token) = lexer.next_token() {
        found.push((token.ty, token.lit));
        calls += 1;
        assert!(calls <= input.chars().count());
    }
    assert_eq!(lexer.next_token(), None);
    found
}

fn expect(input: &str, expected: Vec<(TokenType, &str)>) {
    let found = scan_all(input);
    let expected: Vec<(TokenType, String)> =
        expected.into_iter().map(|(ty, lit)| (ty, lit.to_string())).collect();
    assert_eq!(found, expected);
}

#[test]
fn punctuation_run() {
    expect(
        "=+(){},;",
        vec![
            (TokenType::Assign, "="),
            (TokenType::Plus, "+"),
            (TokenType::LParen, "("),
            (TokenType::RParen, ")"),
            (TokenType::LBrace, "{"),
            (TokenType::RBrace, "}"),
            (TokenType::Comma, ","),
            (TokenType::Semicolon, ";"),
        ],
    );
}

#[test]
fn let_statement() {
    expect(
        "let five = 5;",
        vec![
            (TokenType::Let, "let"),
            (TokenType::Ident, "five"),
            (TokenType::Assign, "="),
            (TokenType::Int, "5"),
            (TokenType::Semicolon, ";"),
        ],
    );
}

#[test]
fn equality_comparison() {
    expect(
        "10 == 10;",
        vec![
            (TokenType::Int, "10"),
            (TokenType::Eq, "=="),
            (TokenType::Int, "10"),
            (TokenType::Semicolon, ";"),
        ],
    );
}

#[test]
fn inequality_comparison() {
    expect(
        "9 != 10;",
        vec![
            (TokenType::Int, "9"),
            (TokenType::NoEq, "!="),
            (TokenType::Int, "10"),
            (TokenType::Semicolon, ";"),
        ],
    );
}

#[test]
fn conditional_on_one_line() {
    expect(
        "if (5 < 10) { return true; }",
        vec![
            (TokenType::If, "if"),
            (TokenType::LParen, "("),
            (TokenType::Int, "5"),
            (TokenType::Lt, "<"),
            (TokenType::Int, "10"),
            (TokenType::RParen, ")"),
            (TokenType::LBrace, "{"),
            (TokenType::Return, "return"),
            (TokenType::True, "true"),
            (TokenType::Semicolon, ";"),
            (TokenType::RBrace, "}"),
        ],
    );
}

#[test]
fn empty_input_has_no_tokens() {
    let mut lexer = Lexer::new(String::new());
    assert_eq!(lexer.next_token(), None);
    assert_eq!(lexer.next_token(), None);
}

#[test]
fn whitespace_only_has_no_tokens() {
    expect(" \t\r\n  ", vec![]);
}

#[test]
fn lone_unrecognized_character() {
    let mut lexer = Lexer::new("@".to_string());
    assert_eq!(lexer.next_token(), Some(Token::new(TokenType::Illegal, "@".to_string())));
    assert_eq!(lexer.next_token(), None);
}

#[test]
fn scanning_continues_after_an_unrecognized_character() {
    expect(
        "a @# 1",
        vec![
            (TokenType::Ident, "a"),
            (TokenType::Illegal, "@"),
            (TokenType::Illegal, "#"),
            (TokenType::Int, "1"),
        ],
    );
}

#[test]
fn characters_outside_ascii_are_unrecognized() {
    expect(
        "\u{e9} abc \u{4e16}7",
        vec![
            (TokenType::Illegal, "\u{e9}"),
            (TokenType::Ident, "abc"),
            (TokenType::Illegal, "\u{4e16}"),
            (TokenType::Int, "7"),
        ],
    );
}

#[test]
fn other_whitespace_is_unrecognized() {
    expect("\u{b}", vec![(TokenType::Illegal, "\u{b}")]);
    expect("\u{a0}", vec![(TokenType::Illegal, "\u{a0}")]);
}

#[test]
fn identifier_at_the_end_of_the_input() {
    expect("abc", vec![(TokenType::Ident, "abc")]);
    expect("return", vec![(TokenType::Return, "return")]);
}

#[test]
fn number_at_the_end_of_the_input() {
    expect("x = 1234567890", vec![
        (TokenType::Ident, "x"),
        (TokenType::Assign, "="),
        (TokenType::Int, "1234567890"),
    ]);
}

#[test]
fn underscore_is_a_letter() {
    expect("_a_b __", vec![(TokenType::Ident, "_a_b"), (TokenType::Ident, "__")]);
}

#[test]
fn a_digit_ends_an_identifier() {
    expect("x1", vec![(TokenType::Ident, "x"), (TokenType::Int, "1")]);
    expect("1x", vec![(TokenType::Int, "1"), (TokenType::Ident, "x")]);
    expect("let5", vec![(TokenType::Let, "let"), (TokenType::Int, "5")]);
}

#[test]
fn assign_and_bang_at_the_end_of_the_input() {
    expect("=", vec![(TokenType::Assign, "=")]);
    expect("!", vec![(TokenType::Bang, "!")]);
    expect("==", vec![(TokenType::Eq, "==")]);
    expect("!=", vec![(TokenType::NoEq, "!=")]);
}

#[test]
fn lookahead_takes_one_character_only() {
    expect("===", vec![(TokenType::Eq, "=="), (TokenType::Assign, "=")]);
    expect("!==", vec![(TokenType::NoEq, "!="), (TokenType::Assign, "=")]);
    expect("= =", vec![(TokenType::Assign, "="), (TokenType::Assign, "=")]);
    expect("!!=", vec![(TokenType::Bang, "!"), (TokenType::NoEq, "!=")]);
    expect("=!", vec![(TokenType::Assign, "="), (TokenType::Bang, "!")]);
}

#[test]
fn every_single_character_mark() {
    expect(
        "<>+-/*(){},;",
        vec![
            (TokenType::Lt, "<"),
            (TokenType::Gt, ">"),
            (TokenType::Plus, "+"),
            (TokenType::Minus, "-"),
            (TokenType::Slash, "/"),
            (TokenType::Asterisk, "*"),
            (TokenType::LParen, "("),
            (TokenType::RParen, ")"),
            (TokenType::LBrace, "{"),
            (TokenType::RBrace, "}"),
            (TokenType::Comma, ","),
            (TokenType::Semicolon, ";"),
        ],
    );
}

#[test]
fn same_input_gives_same_tokens() {
    let input = "let add = fn(x, y) { x + y; }; @ 10 != 9";
    assert_eq!(scan_all(input), scan_all(input));
    assert_eq!(scan_all(input).len(), 20);
}

#[test]
fn lexemes_cover_the_input() {
    let input = " if (a_b == 10)\n\t{ return !x; } $ \r\n";
    let joined: String = scan_all(input).into_iter().map(|(_, lit)| lit).collect();
    let stripped: String =
        input.chars().filter(|c| !matches!(c, ' ' | '\t' | '\n' | '\r')).collect();
    assert_eq!(joined, stripped);
    assert_eq!(joined, "if(a_b==10){return!x;}$");
}

#[test]
fn no_more_tokens_than_characters() {
    let input = "+-*/<>";
    assert_eq!(scan_all(input).len(), 6);
    let input = "a b c";
    assert_eq!(scan_all(input).len(), 3);
}

#[test]
fn end_of_input_is_reported_again() {
    let mut lexer = Lexer::new("x ".to_string());
    assert_eq!(lexer.next_token(), Some(Token::new(TokenType::Ident, "x".to_string())));
    assert_eq!(lexer.next_token(), None);
    assert_eq!(lexer.next_token(), None);
    assert_eq!(lexer.next_token(), None);
}

#[test]
fn reserved_words() {
    assert_eq!(lookup_ident("fn"), TokenType::Function);
    assert_eq!(lookup_ident("let"), TokenType::Let);
    assert_eq!(lookup_ident("if"), TokenType::If);
    assert_eq!(lookup_ident("else"), TokenType::Else);
    assert_eq!(lookup_ident("true"), TokenType::True);
    assert_eq!(lookup_ident("false"), TokenType::False);
    assert_eq!(lookup_ident("return"), TokenType::Return);
}

#[test]
fn other_words_are_identifiers() {
    assert_eq!(lookup_ident(""), TokenType::Ident);
    assert_eq!(lookup_ident("f"), TokenType::Ident);
    assert_eq!(lookup_ident("fnn"), TokenType::Ident);
    assert_eq!(lookup_ident("Let"), TokenType::Ident);
    assert_eq!(lookup_ident("TRUE"), TokenType::Ident);
    assert_eq!(lookup_ident("returns"), TokenType::Ident);
    assert_eq!(lookup_ident("elsf"), TokenType::Ident);
    assert_eq!(lookup_ident("foobar"), TokenType::Ident);
}

#[test]
fn keywords_are_matched_whole_and_by_case() {
    expect(
        "iff If lets fn",
        vec![
            (TokenType::Ident, "iff"),
            (TokenType::Ident, "If"),
            (TokenType::Ident, "lets"),
            (TokenType::Function, "fn"),
        ],
    );
}

#[test]
fn token_holds_what_it_was_made_of() {
    let token = Token::new(TokenType::Int, "42".to_string());
    assert_eq!(token.ty, TokenType::Int);
    assert_eq!(token.lit, "42");
}
