use rust_indexer::docs::{collect_doc_lines, extract_docs, summarize};
use rust_indexer::syntax::Annotation;
use rust_indexer::text::{join, trim};

fn doc(text: &str) -> Annotation {
    Annotation { ident: Some(String::from("doc")), literal: Some(String::from(text)) }
}

#[test]
fn extracts_docs() {
    let attrs = vec![doc(" Line one "), doc(""), doc("Line two")];

    let (summary, doc) = extract_docs(&attrs);
    assert_eq!(summary.as_deref(), Some("Line one"));
    assert_eq!(doc.as_deref(), Some(" Line one \n\nLine two"));
}

#[test]
fn no_attributes_no_docs() {
    assert_eq!(extract_docs(&Vec::new()), (None, None));
}

#[test]
fn blank_lines_give_a_block_without_summary() {
    let attrs = vec![doc(""), doc("   "), doc("\t")];
    let (summary, doc) = extract_docs(&attrs);
    assert_eq!(summary, None);
    assert_eq!(doc.as_deref(), Some("\n   \n\t"));
}

#[test]
fn summary_skips_leading_blank_lines() {
    let attrs = vec![doc(" "), doc(""), doc("  third  "), doc("fourth")];
    let (summary, doc) = extract_docs(&attrs);
    assert_eq!(summary.as_deref(), Some("third"));
    assert_eq!(doc.as_deref(), Some(" \n\n  third  \nfourth"));
}

#[test]
fn single_line_is_not_followed_by_a_newline() {
    let (summary, doc) = extract_docs(&vec![doc(" only")]);
    assert_eq!(summary.as_deref(), Some("only"));
    assert_eq!(doc.as_deref(), Some(" only"));
}

#[test]
fn attributes_that_are_no_doc_lines_are_ignored() {
    let attrs = vec![
        Annotation {
            ident: Some(String::from("path")),
            literal: Some(String::from("sys/windows.rs")),
        },
        doc(" kept"),
        Annotation { ident: Some(String::from("doc")), literal: None },
        Annotation { ident: None, literal: Some(String::from("not by this path")) },
        Annotation { ident: Some(String::from("docs")), literal: Some(String::from("near")) },
        Annotation { ident: Some(String::from("derive")), literal: None },
        doc(" too"),
    ];
    assert_eq!(collect_doc_lines(&attrs), vec![String::from(" kept"), String::from(" too")]);
    let (summary, doc) = extract_docs(&attrs);
    assert_eq!(summary.as_deref(), Some("kept"));
    assert_eq!(doc.as_deref(), Some(" kept\n too"));

    let none = vec![
        Annotation { ident: Some(String::from("Doc")), literal: Some(String::from("text")) },
        Annotation { ident: Some(String::from("doc")), literal: None },
    ];
    assert_eq!(extract_docs(&none), (None, None));
}

#[test]
fn trim_removes_white_space_at_both_ends_only() {
    assert_eq!(trim("  a b  "), "a b");
    assert_eq!(trim("a"), "a");
    assert_eq!(trim(""), "");
    assert_eq!(trim(" \t\r\n"), "");
    assert_eq!(trim("\n x"), "x");
    assert_eq!(trim("x \n"), "x");
    assert_eq!(trim("x"), "x");
}

#[test]
fn trim_knows_white_space_beyond_ascii() {
    assert_eq!(trim("\u{3000}\u{a0}é t\u{e9}\u{2003}\u{85}"), "é t\u{e9}");
    // A zero-width space is not white space.
    assert_eq!(trim("\u{200b} x \u{200b}"), "\u{200b} x \u{200b}");
}

#[test]
fn trim_agrees_with_the_standard_library() {
    let samples = [
        "", " ", "a", " a", "a ", "  a  b  ", "\t\ttab", "new\n", "\u{2028}sep\u{2029}",
        "\u{1680}ogham\u{1680}", "\u{feff}bom", "日本語 ", " \u{205f}x",
    ];
    for sample in samples {
        assert_eq!(trim(sample), sample.trim());
    }
}

#[test]
fn join_puts_the_separator_between_neighbours() {
    let parts = vec![String::from("a"), String::from(""), String::from("c")];
    assert_eq!(join(&parts, ", "), "a, , c");
    assert_eq!(join(&parts[..1].to_vec(), ", "), "a");
    assert_eq!(join(&Vec::new(), ", "), "");
    assert_eq!(join(&parts, ""), "ac");
}

#[test]
fn summarize_takes_the_lines_as_they_are() {
    let lines = vec![String::from(" Line one "), String::new(), String::from("Line two")];
    let (summary, doc) = summarize(&lines);
    assert_eq!(summary.as_deref(), Some("Line one"));
    assert_eq!(doc.as_deref(), Some(" Line one \n\nLine two"));

    assert_eq!(summarize(&Vec::new()), (None, None));
    assert_eq!(summarize(&vec![String::from("  ")]), (None, Some(String::from("  "))));
}
