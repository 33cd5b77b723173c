use aeiou::lexer::{tokenize, Token, TokenType};

fn kinds(tokens: &[Token]) -> Vec<TokenType> {
    tokens.iter().map(|t| t.type_).collect()
}

#[test]
fn single_character_tokens() {
    let tokens = tokenize("+-*/():").unwrap();
    assert_eq!(
        kinds(&tokens),
        vec![
            TokenType::Plus,
            TokenType::Minus,
            TokenType::Star,
            TokenType::Slash,
            TokenType::LeftParen,
            TokenType::RightParen,
            TokenType::Colon,
        ]
    );
}

#[test]
fn whitespace_is_skipped_and_newline_kept() {
    let tokens = tokenize(" \t\r+\n").unwrap();
    assert_eq!(kinds(&tokens), vec![TokenType::Plus, TokenType::Newline]);
}

#[test]
fn integer_and_float_numbers() {
    let tokens = tokenize("12 3.5 7.").unwrap();
    assert_eq!(
        kinds(&tokens),
        vec![TokenType::Number, TokenType::Number, TokenType::Number]
    );
    assert_eq!(tokens[0].string, "12");
    assert_eq!(tokens[1].string, "3.5");
    assert_eq!(tokens[2].string, "7.");
}

#[test]
fn number_with_two_points_is_rejected() {
    assert_eq!(tokenize("1.2.3").err(), Some("invalid number format."));
}

#[test]
fn unknown_character_is_rejected() {
    assert_eq!(tokenize("2 ; 3").err(), Some("invalid input."));
}

#[test]
fn print_keyword_is_recognized() {
    let tokens = tokenize("დაბეჭდე 5\n").unwrap();
    assert_eq!(
        kinds(&tokens),
        vec![TokenType::Print, TokenType::Number, TokenType::Newline]
    );
}

#[test]
fn var_keyword_and_identifier() {
    let tokens = tokenize("ცვლადი x = 5\n").unwrap();
    assert_eq!(
        kinds(&tokens),
        vec![
            TokenType::Var,
            TokenType::Identifier,
            TokenType::Equal,
            TokenType::Number,
            TokenType::Newline,
        ]
    );
    assert_eq!(tokens[1].string, "x");
}

#[test]
fn double_equal_token() {
    let tokens = tokenize("==").unwrap();
    assert_eq!(kinds(&tokens), vec![TokenType::EqualEqual]);
}

#[test]
fn token_constructors() {
    let t = Token::new(TokenType::Number, String::from("42"));
    assert_eq!(t.type_, TokenType::Number);
    assert_eq!(t.string, "42");
    let t = Token::from_type(TokenType::Plus);
    assert_eq!(t.type_, TokenType::Plus);
    assert_eq!(t.string, "");
}

#[test]
fn mixed_identifier_with_digits() {
    let tokens = tokenize("abc12\n").unwrap();
    assert_eq!(kinds(&tokens), vec![TokenType::Identifier, TokenType::Newline]);
    assert_eq!(tokens[0].string, "abc12");
}
