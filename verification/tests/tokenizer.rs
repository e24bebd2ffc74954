use tldr::tokenizer::{classify, tokenize_lines, trim_str, Tokenizer};
use tldr::types::LineType;

#[test]
fn test_linetype_from_str() {
    assert_eq!(classify(""), LineType::Empty);
    assert_eq!(classify(" \n \r"), LineType::Empty);
    assert_eq!(classify("# Hello there"), LineType::Title("Hello there".into()));
    assert_eq!(
        classify("> tis a description \n"),
        LineType::Description("tis a description".into())
    );
    assert_eq!(classify("- some command"), LineType::ExampleText("some command".into()));
    assert_eq!(classify("`$ cargo run`"), LineType::ExampleCode("$ cargo run".into()));
    assert_eq!(classify("`$ cargo run"), LineType::Other("`$ cargo run".into()));
    assert_eq!(classify("jklö"), LineType::Other("jklö".into()));
}

#[test]
fn classify_whitespace_crlf_is_empty() {
    assert_eq!(classify("   \r\n"), LineType::Empty);
}

#[test]
fn classify_strips_one_trailing_crlf_pair() {
    assert_eq!(classify("`$ cargo run`\r\n"), LineType::ExampleCode("$ cargo run".into()));
    // only the pair is stripped: a lone trailing line feed stays with the content
    assert_eq!(classify("plain text\n"), LineType::Other("plain text\n".into()));
}

#[test]
fn classify_marker_needs_the_space() {
    assert_eq!(classify("#no space"), LineType::Other("#no space".into()));
    assert_eq!(classify(">quoted"), LineType::Other(">quoted".into()));
}

#[test]
fn classify_single_backtick_is_code_only_when_closed() {
    assert_eq!(classify("``"), LineType::ExampleCode("".into()));
    assert_eq!(classify("`"), LineType::Other("`".into()));
}

#[test]
fn classify_trims_marker_payload() {
    assert_eq!(classify("#    spaced out   "), LineType::Title("spaced out".into()));
    assert_eq!(classify("-  x "), LineType::ExampleText("x".into()));
}

#[test]
fn trim_str_removes_surrounding_whitespace_only() {
    assert_eq!(trim_str("  a b\t\n"), "a b".to_string());
    assert_eq!(trim_str("\t \r\n"), String::new());
    assert_eq!(trim_str("ab"), "ab".to_string());
}

#[test]
fn tokenizer_yields_lines_in_order_then_none() {
    let lines: Vec<String> = vec![
        "# tar".into(),
        "".into(),
        "> archive tool".into(),
        "- pack a directory".into(),
        "`tar cf target.tar directory`".into(),
    ];
    let mut tok = Tokenizer::new(lines);
    assert_eq!(tok.next_line(), Some(LineType::Title("tar".into())));
    assert_eq!(tok.next_line(), Some(LineType::Empty));
    assert_eq!(tok.next_line(), Some(LineType::Description("archive tool".into())));
    assert_eq!(tok.next_line(), Some(LineType::ExampleText("pack a directory".into())));
    assert_eq!(
        tok.next_line(),
        Some(LineType::ExampleCode("tar cf target.tar directory".into()))
    );
    assert_eq!(tok.next_line(), None);
    assert_eq!(tok.next_line(), None);
}

#[test]
fn tokenize_lines_keeps_length_and_order() {
    let lines: Vec<String> = vec!["jklö".into(), "# t".into(), "".into()];
    let toks = tokenize_lines(&lines);
    assert_eq!(toks.len(), 3);
    assert_eq!(toks[0], LineType::Other("jklö".into()));
    assert_eq!(toks[1], LineType::Title("t".into()));
    assert_eq!(toks[2], LineType::Empty);
}

#[test]
fn page_first_substantive_line_is_the_description() {
    // the shape a page takes: after the title and blank lines, a description
    let page: Vec<String> = vec![
        "# tldr".into(),
        "".into(),
        "> Simplified man pages.".into(),
        "".into(),
        "- Show the tar page".into(),
        "`tldr tar`".into(),
    ];
    let toks = tokenize_lines(&page);
    let first = toks
        .iter()
        .find(|t| !matches!(t, LineType::Empty | LineType::Title(_)))
        .expect("page has substantive lines");
    assert!(matches!(first, LineType::Description(_)));
}
