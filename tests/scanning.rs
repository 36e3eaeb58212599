use c_lexer::{
    anchored, pattern_is_valid, pick_rule,
    generate_tmakers, get_token, lexer, load_tokens, scan, scan_partial, LexError, TMaker, Token,
    TokenTypes,
};

fn kinds(tokens: &[Token]) -> Vec<TokenTypes> {
    tokens.iter().map(|t| t.token_type).collect()
}

fn texts(tokens: &[Token]) -> Vec<String> {
    tokens.iter().map(|t| t.value.clone()).collect()
}

#[test]
fn keyword_int_is_not_an_identifier() {
    let tokens = lexer(&String::from("int")).unwrap();
    assert_eq!(tokens.len(), 1);
    assert_eq!(tokens[0].token_type, TokenTypes::IntKeyword);
    assert_eq!(tokens[0].value, "int");
}

#[test]
fn keyword_prefix_is_an_identifier() {
    let tokens = lexer(&String::from("integer")).unwrap();
    assert_eq!(tokens.len(), 1);
    assert_eq!(tokens[0].token_type, TokenTypes::Identifier);
    assert_eq!(tokens[0].value, "integer");
}

#[test]
fn only_whitespace_gives_no_tokens() {
    let tokens = lexer(&String::from("   ")).unwrap();
    assert!(tokens.is_empty());
}

#[test]
fn empty_source_gives_no_tokens() {
    let tokens = lexer(&String::new()).unwrap();
    assert!(tokens.is_empty());
}

#[test]
fn unknown_character_is_stuck_at_zero() {
    match lexer(&String::from("@")) {
        Err(LexError::Stuck(p)) => assert_eq!(p, 0),
        other => panic!("expected a stuck scan, got {:?}", other),
    }
}

#[test]
fn stuck_after_a_keyword() {
    match lexer(&String::from("int@")) {
        Err(LexError::Stuck(p)) => assert_eq!(p, 3),
        other => panic!("expected a stuck scan, got {:?}", other),
    }
    let table = generate_tmakers().unwrap();
    let (tokens, stuck) = scan_partial("int@", &table);
    assert_eq!(stuck, Some(3));
    assert_eq!(kinds(&tokens), vec![TokenTypes::IntKeyword]);
    assert_eq!(texts(&tokens), vec!["int".to_string()]);
}

#[test]
fn stuck_position_is_a_byte_offset() {
    let table = generate_tmakers().unwrap();
    let (tokens, stuck) = scan_partial("x  $ y", &table);
    assert_eq!(stuck, Some(3));
    assert_eq!(texts(&tokens), vec!["x".to_string()]);
}

#[test]
fn end_to_end_function() {
    let tokens = lexer(&String::from("void main() { return; }")).unwrap();
    assert_eq!(
        kinds(&tokens),
        vec![
            TokenTypes::VoidKeyword,
            TokenTypes::Identifier,
            TokenTypes::OpenParen,
            TokenTypes::CloseParen,
            TokenTypes::OpenBrace,
            TokenTypes::ReturnKeyword,
            TokenTypes::Semicolon,
            TokenTypes::CloseBrace,
        ]
    );
    assert_eq!(
        texts(&tokens),
        vec!["void", "main", "(", ")", "{", "return", ";", "}"]
            .into_iter()
            .map(String::from)
            .collect::<Vec<_>>()
    );
}

#[test]
fn constants_and_identifiers() {
    let tokens = lexer(&String::from("int x1 42;")).unwrap();
    assert_eq!(
        kinds(&tokens),
        vec![
            TokenTypes::IntKeyword,
            TokenTypes::Identifier,
            TokenTypes::Constant,
            TokenTypes::Semicolon,
        ]
    );
    assert_eq!(texts(&tokens), vec!["int", "x1", "42", ";"]);
}

#[test]
fn tokens_cover_the_source() {
    let source = "void  f(){\n\treturn 7;\n}";
    let tokens = lexer(&String::from(source)).unwrap();
    let rebuilt: String = tokens.iter().map(|t| t.value.as_str()).collect();
    let stripped: String = source.chars().filter(|c| !c.is_whitespace()).collect();
    assert_eq!(rebuilt, stripped);
    let mut at = 0;
    for t in &tokens {
        let found = source[at..].find(t.value.as_str()).unwrap();
        assert!(source[at..at + found].chars().all(char::is_whitespace));
        at += found + t.value.len();
    }
    assert!(source[at..].chars().all(char::is_whitespace));
}

#[test]
fn scanning_twice_gives_the_same_tokens() {
    let source = String::from("int main() { return 0; }");
    let table = generate_tmakers().unwrap();
    let a = scan(&source, &table).unwrap();
    let b = scan(&source, &table).unwrap();
    assert_eq!(kinds(&a), kinds(&b));
    assert_eq!(texts(&a), texts(&b));
}

#[test]
fn two_rule_tables_match_alike() {
    let a = generate_tmakers().unwrap();
    let b = generate_tmakers().unwrap();
    assert_eq!(a.len(), 11);
    assert_eq!(a.len(), b.len());
    for hay in ["int x", "  42", "(void)", "return;", "@"] {
        for (ra, rb) in a.iter().zip(b.iter()) {
            assert_eq!(ra.token_type(), rb.token_type());
            assert_eq!(ra.peek(hay), rb.peek(hay));
        }
    }
}

#[test]
fn rule_table_order_and_priorities() {
    let table = generate_tmakers().unwrap();
    let order: Vec<TokenTypes> = table.iter().map(|t| t.token_type()).collect();
    assert_eq!(
        order,
        vec![
            TokenTypes::Whitespace,
            TokenTypes::Constant,
            TokenTypes::IntKeyword,
            TokenTypes::VoidKeyword,
            TokenTypes::ReturnKeyword,
            TokenTypes::Identifier,
            TokenTypes::OpenParen,
            TokenTypes::CloseParen,
            TokenTypes::OpenBrace,
            TokenTypes::CloseBrace,
            TokenTypes::Semicolon,
        ]
    );
    assert_eq!(table[0].priority(), 100);
    assert_eq!(table[10].priority(), 110);
}

#[test]
fn peek_finds_the_first_match_anywhere() {
    let rule = TMaker::new(TokenTypes::IntKeyword, "\\bint\\b", 110);
    assert_eq!(rule.peek("  int x"), Some((2, 5)));
    assert_eq!(rule.peek("integer"), None);
}

#[test]
fn bad_pattern_is_reported() {
    assert!(!pattern_is_valid("("));
    assert!(pattern_is_valid("\\("));
}

#[test]
fn first_anchored_rule_wins() {
    let found = vec![
        (TokenTypes::Whitespace, None),
        (TokenTypes::Empty, Some((0, 5))),
        (TokenTypes::Constant, Some((2, 4))),
        (TokenTypes::IntKeyword, Some((0, 3))),
        (TokenTypes::Identifier, Some((0, 7))),
    ];
    assert_eq!(pick_rule(&found), Some((TokenTypes::IntKeyword, 3)));
    assert_eq!(pick_rule(&found[4..]), Some((TokenTypes::Identifier, 7)));
    assert_eq!(pick_rule(&found[..3]), None);
    assert_eq!(pick_rule(&[]), None);
}

#[test]
fn get_token_only_at_the_start() {
    let rule = TMaker::new(TokenTypes::Constant, "\\d+", 110);
    let (t, n) = get_token("123abc", &rule);
    assert_eq!(t.token_type, TokenTypes::Constant);
    assert_eq!(t.value, "123");
    assert_eq!(n, 3);
    let (t, n) = get_token("abc123", &rule);
    assert_eq!(t.token_type, TokenTypes::Empty);
    assert_eq!(t.value, "");
    assert_eq!(n, 0);
}

#[test]
fn empty_match_is_stuck() {
    let table = vec![TMaker::new(TokenTypes::Identifier, "\\w*", 110)];
    let (tokens, stuck) = scan_partial("ab-", &table);
    assert_eq!(texts(&tokens), vec!["ab"]);
    assert_eq!(stuck, Some(2));
}

#[test]
fn non_ascii_text_is_kept_whole() {
    let tokens = lexer(&String::from("größe ( )")).unwrap();
    assert_eq!(texts(&tokens), vec!["größe", "(", ")"]);
    assert_eq!(tokens[0].token_type, TokenTypes::Identifier);
}

#[test]
fn category_names() {
    assert_eq!(TokenTypes::IntKeyword.name(), "IntKeyword");
    assert_eq!(TokenTypes::Semicolon.name(), "Semicolon");
    assert_eq!(TokenTypes::Empty.name(), "Empty");
}

#[test]
fn json_rule_description_loads() {
    let doc = load_tokens().unwrap();
    assert_eq!(doc["tokens"].len(), 2);
    assert_eq!(doc["tokens"][0]["tokenType"], "whitespace");
    assert_eq!(doc["tokens"][1]["regex"], "\\d");
}

#[test]
fn only_matches_at_offset_zero_count() {
    assert_eq!(anchored(Some((0, 4))), Some(4));
    assert_eq!(anchored(Some((2, 5))), None);
    assert_eq!(anchored(Some((0, 0))), Some(0));
    assert_eq!(anchored(None), None);
}

#[test]
fn empty_category_rule_is_no_match() {
    let only_empty = vec![TMaker::new(TokenTypes::Empty, "\\w+", 110)];
    let (tokens, stuck) = scan_partial("ab", &only_empty);
    assert!(tokens.is_empty());
    assert_eq!(stuck, Some(0));
    let table = vec![
        TMaker::new(TokenTypes::Empty, "\\w+", 110),
        TMaker::new(TokenTypes::Identifier, "\\w+", 110),
    ];
    let tokens = scan(&String::from("ab"), &table).unwrap();
    assert_eq!(kinds(&tokens), vec![TokenTypes::Identifier]);
    assert_eq!(texts(&tokens), vec!["ab"]);
}
