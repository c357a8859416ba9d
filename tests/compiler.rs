use riscvm::compiler::{strip_comment, Compiler, AST};

#[test]
fn tokenize_splits_words_and_drops_comments() {
    let c = Compiler::new();
    assert!(c.obj.is_empty());
    let words = c.tokenize("start:  cp r0, #5 ; load five").unwrap();
    assert_eq!(words, vec!["start:", "cp", "r0,", "#5"]);
}

#[test]
fn tokenize_keeps_quoted_strings_whole() {
    let c = Compiler::new();
    let words = c.tokenize("msg .str \"hello world\" x").unwrap();
    assert_eq!(words, vec!["msg", ".str", "\"hello world\"", "x"]);
}

#[test]
fn parse_tokenizes_each_line() {
    let c = Compiler::new();
    let lines = vec!["; only a comment".to_string(), "halt".to_string()];
    let out = c.parse(&lines).unwrap();
    assert_eq!(out.len(), 2);
    assert!(out[0].is_empty());
    assert_eq!(out[1], vec!["halt"]);
}

#[test]
fn strip_comment_cuts_at_first_semicolon() {
    assert_eq!(strip_comment("a;b;c"), "a");
    assert_eq!(strip_comment("no comment"), "no comment");
    let ast = AST::new();
    assert!(ast.label.is_none() && ast.opcode.is_none() && ast.operands.is_none());
}
