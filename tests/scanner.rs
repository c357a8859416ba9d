use riscvm::error::Error;
use riscvm::opcode::{Scanner, Token, TokenType};

fn scan(src: &str) -> (Vec<Token>, Vec<Error>) {
    let mut s = Scanner::new(src.to_string());
    s.scan_tokens();
    let errors = s.errors.clone();
    (s.tokens(), errors)
}

#[test]
fn scans_instruction_words_and_numbers() {
    let (tokens, errors) = scan("loop cp r0 #2000 $ff !101\n  jmp loop");
    assert!(errors.is_empty());
    let kinds: Vec<TokenType> = tokens.iter().map(|t| t.ttype).collect();
    assert_eq!(
        kinds,
        vec![
            TokenType::Identifier,
            TokenType::Cp,
            TokenType::Identifier,
            TokenType::DecNumber,
            TokenType::HexNumber,
            TokenType::BinNumber,
            TokenType::Jmp,
            TokenType::Identifier
        ]
    );
    let lexemes: Vec<&str> = tokens.iter().map(|t| t.lexeme.as_str()).collect();
    assert_eq!(lexemes, vec!["loop", "cp", "r0", "#2000", "$ff", "!101", "jmp", "loop"]);
    assert_eq!(tokens[3].literal.as_deref(), Some("#2000"));
    assert_eq!(tokens[1].literal, None);
    assert_eq!(tokens[6].line, 1);
    assert_eq!(tokens[2].position, 8);
}

#[test]
fn comments_and_directives() {
    let (tokens, errors) = scan(".org ; cp r0\nhalt");
    assert!(errors.is_empty());
    assert_eq!(tokens.len(), 2);
    assert_eq!(tokens[0].ttype, TokenType::Directive);
    assert_eq!(tokens[0].lexeme, ".org");
    assert_eq!(tokens[1].ttype, TokenType::Halt);
    assert_eq!(tokens[1].line, 1);
}

#[test]
fn strings_and_their_literals() {
    let (tokens, errors) = scan("puts \"hi\nthere\" ret");
    assert!(errors.is_empty());
    assert_eq!(tokens.len(), 3);
    assert_eq!(tokens[1].ttype, TokenType::String);
    assert_eq!(tokens[1].lexeme, "\"hi\nthere\"");
    assert_eq!(tokens[1].literal.as_deref(), Some("hi\nthere"));
    assert_eq!(tokens[1].line, 1);
    assert_eq!(tokens[2].ttype, TokenType::Ret);
}

#[test]
fn unexpected_characters_and_open_strings_are_errors() {
    let (tokens, errors) = scan("cp r0, @");
    assert_eq!(tokens.len(), 2);
    assert_eq!(errors, vec![Error::InvalidCharacter(','), Error::InvalidCharacter('@')]);
    let (tokens, errors) = scan("\"abc");
    assert_eq!(tokens.len(), 1);
    assert_eq!(tokens[0].ttype, TokenType::String);
    assert_eq!(tokens[0].lexeme, "\"abc");
    assert_eq!(tokens[0].literal.as_deref(), Some("abc"));
    assert_eq!(errors, vec![Error::UnterminatedString(0)]);
    let (tokens, errors) = scan("\"");
    assert_eq!(tokens.len(), 1);
    assert_eq!(tokens[0].ttype, TokenType::String);
    assert_eq!(tokens[0].literal.as_deref(), Some(""));
    assert_eq!(errors, vec![Error::UnterminatedString(0)]);
}

#[test]
fn scan_tokens_counts_lines_to_the_end() {
    let mut s = Scanner::new(" \n\t\r\n".to_string());
    s.scan_tokens();
    assert!(s.tokens.is_empty());
    assert_eq!(s.line, 2);
    assert_eq!(s.current_idx, 5);
}

#[test]
fn scan_token_with_an_earlier_token_start() {
    let mut s = Scanner::new("ab cd".to_string());
    s.start_idx = 0;
    s.current_idx = 2;
    s.scan_token();
    assert_eq!(s.current_idx, 3);
    assert!(s.tokens.is_empty());
    s.consume_identifier();
    assert_eq!(s.current_idx, 5);
    assert_eq!(s.tokens.len(), 1);
    assert_eq!(s.tokens[0].lexeme, "ab cd");
    assert_eq!(s.tokens[0].ttype, TokenType::Identifier);
    let mut s = Scanner::new("..org".to_string());
    s.current_idx = 2;
    s.consume_directive();
    assert_eq!(s.tokens[0].lexeme, "..org");
    assert_eq!(s.tokens[0].literal.as_deref(), Some("..org"));
}

#[test]
fn every_keyword_is_recognised() {
    let words = [
        ("cp", TokenType::Cp),
        ("add", TokenType::Add),
        ("sub", TokenType::Sub),
        ("mul", TokenType::Mul),
        ("div", TokenType::Div),
        ("xor", TokenType::Xor),
        ("and", TokenType::And),
        ("or", TokenType::Or),
        ("not", TokenType::Not),
        ("shl", TokenType::Shl),
        ("shr", TokenType::Shr),
        ("cmp", TokenType::Cmp),
        ("be", TokenType::Be),
        ("bne", TokenType::Bne),
        ("bg", TokenType::Bg),
        ("bge", TokenType::Bge),
        ("bl", TokenType::Bl),
        ("ble", TokenType::Ble),
        ("bc", TokenType::Bc),
        ("jmp", TokenType::Jmp),
        ("call", TokenType::Call),
        ("ret", TokenType::Ret),
        ("puts", TokenType::Puts),
        ("getc", TokenType::Getc),
        ("halt", TokenType::Halt),
        ("halts", TokenType::Identifier),
    ];
    for (w, t) in words {
        let (tokens, _) = scan(w);
        assert_eq!(tokens.len(), 1);
        assert_eq!(tokens[0].ttype, t, "{}", w);
    }
}

#[test]
fn scanner_primitives() {
    let mut s = Scanner::new("ab".to_string());
    assert!(!s.at_end());
    assert_eq!(s.peek(), 'a');
    assert!(!s.matches('b'));
    assert!(s.matches('a'));
    assert_eq!(s.advance(), 'b');
    assert!(s.at_end());
    assert_eq!(s.peek(), '\0');
    let t = Token::new(TokenType::Eof, String::new(), None, 3, 4);
    assert_eq!(t.line, 3);
    assert_eq!(t.position, 4);
}
