use lexer::tokenize;
use lexer::Cursor;
use lexer::Token;
use lexer::Token::Arrow;
use lexer::Token::Assign;
use lexer::Token::Colon;
use lexer::Token::Conditional;
use lexer::Token::Lbrace;
use lexer::Token::Lbrack;
use lexer::Token::Lparen;
use lexer::Token::Period;
use lexer::Token::Rbrace;
use lexer::Token::Rbrack;
use lexer::Token::Rparen;
use lexer::Token::Semicolon;
use lexer::Token::Unknown;

#[test]
fn it_tokenizes_an_empty_str() {
    let mut tokens = tokenize("");
    assert_eq!(None, tokens.next());
}

#[test]
fn it_tokenizes_a_single_letter_token() {
    let input = "=";
    let mut tokens = tokenize(input);
    assert_eq!(Some(Assign(&input[0..1])), tokens.next());
    assert_eq!(None, tokens.next());
}

#[test]
fn it_tokenizes_a_two_letter_token() {
    let input = "=>";
    let mut tokens = tokenize(input);
    assert_eq!(Some(Arrow(&input[0..2])), tokens.next());
    assert_eq!(None, tokens.next());
}

#[test]
fn it_tokenizes_consecutive_single_letter_tokens() {
    let input = "()=";
    let mut tokens = tokenize(input);
    assert_eq!(Some(Lparen(&input[0..1])), tokens.next());
    assert_eq!(Some(Rparen(&input[1..2])), tokens.next());
    assert_eq!(Some(Assign(&input[2..3])), tokens.next());
    assert_eq!(None, tokens.next());
}

#[test]
fn it_tokenizes_a_token_following_a_two_letter_token() {
    let input = "=>()";
    let mut tokens = tokenize(input);
    assert_eq!(Some(Arrow(&input[0..2])), tokens.next());
    assert_eq!(Some(Lparen(&input[2..3])), tokens.next());
    assert_eq!(Some(Rparen(&input[3..4])), tokens.next());
    assert_eq!(None, tokens.next());
}

#[test]
fn it_tokenizes_x() {
    let input = "=()";
    let mut tokens = tokenize(input);
    assert_eq!(Some(Assign(&input[0..1])), tokens.next());
    assert_eq!(Some(Lparen(&input[1..2])), tokens.next());
    assert_eq!(Some(Rparen(&input[2..3])), tokens.next());
    assert_eq!(None, tokens.next());
}

fn lexeme_of<'a>(t: &Token<'a>) -> &'a str {
    match *t {
        Lparen(s) | Rparen(s) | Lbrack(s) | Rbrack(s) | Lbrace(s) | Rbrace(s) | Colon(s)
        | Semicolon(s) | Period(s) | Conditional(s) | Arrow(s) | Assign(s) | Unknown(s) => s,
        _ => panic!("a token kind the scanner does not produce"),
    }
}

#[test]
fn concatenated_lexemes_rebuild_the_source() {
    let input = "=>()=a?{;x.==>";
    let tokens = lexer::scan_all(input);
    let mut rebuilt = String::new();
    for t in &tokens {
        rebuilt.push_str(lexeme_of(t));
    }
    assert_eq!(input, rebuilt);
}

#[test]
fn scanning_twice_yields_identical_sequences() {
    let input = "=>()=a?[]{}:;.?==>=";
    let first = lexer::scan_all(input);
    let second = lexer::scan_all(input);
    assert_eq!(first, second);
}

#[test]
fn peek_is_idempotent() {
    let mut cursor = Cursor::new("ab");
    assert_eq!(Some((0, 'a')), cursor.peek());
    assert_eq!(Some((0, 'a')), cursor.peek());
    assert_eq!(Some((0, 'a')), cursor.peek());
    assert_eq!(Some((0, 'a')), cursor.next());
    assert_eq!(Some((1, 'b')), cursor.peek());
    assert_eq!(Some((1, 'b')), cursor.peek());
    assert_eq!(Some((1, 'b')), cursor.next());
    assert_eq!(None, cursor.peek());
    assert_eq!(None, cursor.peek());
    assert_eq!(None, cursor.next());
}

#[test]
fn discard_peek_consumes_the_cached_unit() {
    let mut cursor = Cursor::new("ab");
    assert_eq!(Some((0, 'a')), cursor.peek());
    cursor.discard_peek();
    assert_eq!(Some((1, 'b')), cursor.next());
    assert_eq!(None, cursor.next());
}

#[test]
fn discard_peek_without_a_cached_unit_changes_nothing() {
    let mut cursor = Cursor::new("a");
    cursor.discard_peek();
    assert_eq!(Some((0, 'a')), cursor.next());
    assert_eq!(None, cursor.next());
}

#[test]
fn maximal_munch_for_eq() {
    assert_eq!(vec![Assign("=")], lexer::scan_all("="));
    assert_eq!(vec![Arrow("=>")], lexer::scan_all("=>"));
    assert_eq!(vec![Arrow("=>"), Lparen("("), Rparen(")")], lexer::scan_all("=>()"));
    assert_eq!(vec![Assign("="), Lparen("("), Rparen(")")], lexer::scan_all("=()"));
}

#[test]
fn assign_before_a_non_arrow_character_leaves_it_for_the_next_token() {
    let input = "=a";
    let mut tokens = tokenize(input);
    assert_eq!(Some(Assign(&input[0..1])), tokens.next());
    assert_eq!(Some(Unknown(&input[1..2])), tokens.next());
    assert_eq!(None, tokens.next());
}

#[test]
fn empty_input_scans_to_an_empty_sequence() {
    let tokens = lexer::scan_all("");
    assert_eq!(0, tokens.len());
}

#[test]
fn every_single_character_punctuator_is_recognized() {
    let input = "()[]{}:;.?";
    let tokens = lexer::scan_all(input);
    assert_eq!(
        vec![
            Lparen("("),
            Rparen(")"),
            Lbrack("["),
            Rbrack("]"),
            Lbrace("{"),
            Rbrace("}"),
            Colon(":"),
            Semicolon(";"),
            Period("."),
            Conditional("?"),
        ],
        tokens
    );
}

#[test]
fn unrecognized_characters_become_unknown_tokens() {
    let input = "ab=";
    let mut tokens = tokenize(input);
    assert_eq!(Some(Unknown(&input[0..1])), tokens.next());
    assert_eq!(Some(Unknown(&input[1..2])), tokens.next());
    assert_eq!(Some(Assign(&input[2..3])), tokens.next());
    assert_eq!(None, tokens.next());
}

#[test]
fn offsets_count_characters_not_bytes() {
    let input = "\u{3b1}=";
    let mut cursor = Cursor::new(input);
    assert_eq!(Some((0, '\u{3b1}')), cursor.next());
    assert_eq!(Some((1, '=')), cursor.next());
    assert_eq!(None, cursor.next());
    let tokens = lexer::scan_all(input);
    assert_eq!(vec![Unknown("\u{3b1}"), Assign("=")], tokens);
}
