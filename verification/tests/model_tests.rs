use rust_indexer::entry::{build_entry, line_range, IndexEntry, Kind};
use rust_indexer::index::{index_declaration, index_file};
use rust_indexer::parser::parse_source;
use rust_indexer::syntax::{Annotation, Construct, Declaration, GenericParams, LineSpan};

fn span(first: usize, last: usize) -> LineSpan {
    LineSpan::new(first, last).expect("a span")
}

fn doc(text: &str) -> Annotation {
    Annotation { ident: Some(String::from("doc")), literal: Some(String::from(text)) }
}

fn no_generics() -> GenericParams {
    GenericParams { params: 0, text: String::new() }
}

#[test]
fn line_span_is_ordered_and_fits_a_line_number() {
    assert!(LineSpan::new(3, 5).is_some());
    assert!(LineSpan::new(4, 4).is_some());
    assert!(LineSpan::new(0, 0).is_some());
    assert!(LineSpan::new(5, 3).is_none());
    assert!(LineSpan::new(1, u32::MAX as usize).is_some());
    assert!(LineSpan::new(1, u32::MAX as usize + 1).is_none());
    assert!(LineSpan::new(u32::MAX as usize + 1, u32::MAX as usize + 2).is_none());
}

#[test]
fn line_range_gives_both_ends() {
    assert_eq!(line_range(&span(3, 5)), (3, 5));
    assert_eq!(line_range(&span(7, 7)), (7, 7));
    assert_eq!(span(3, 5).start_line(), 3);
    assert_eq!(span(3, 5).end_line(), 5);
}

#[test]
fn kind_tags_are_the_six_fixed_ones() {
    assert_eq!(Kind::Module.tag(), "module");
    assert_eq!(Kind::Struct.tag(), "struct");
    assert_eq!(Kind::Enum.tag(), "enum");
    assert_eq!(Kind::Trait.tag(), "trait");
    assert_eq!(Kind::Fn.tag(), "fn");
    assert_eq!(Kind::Impl.tag(), "impl");
}

#[test]
fn build_entry_assembles_every_field() {
    let entry = build_entry(
        Kind::Struct,
        "Greeter",
        "src/lib.rs",
        &span(6, 9),
        &vec![doc(" Greeter struct."), doc(" More.")],
        String::from("Greeter"),
    );
    assert_eq!(
        entry,
        IndexEntry {
            kind: String::from("struct"),
            name: String::from("Greeter"),
            file: String::from("src/lib.rs"),
            line_start: 6,
            line_end: 9,
            signature: String::from("Greeter"),
            doc_summary: Some(String::from("Greeter struct.")),
            doc: Some(String::from(" Greeter struct.\n More.")),
        }
    );
}

#[test]
fn index_declaration_covers_each_class() {
    let of = |item: Construct| {
        index_declaration("a.rs", &Declaration { item, attrs: Vec::new(), span: span(1, 2) })
            .map(|e| (e.kind, e.name, e.signature))
    };
    let triple = |k: &str, n: &str, s: &str| Some((String::from(k), String::from(n), String::from(s)));

    assert_eq!(
        of(Construct::Module { name: String::from("m"), inline: true }),
        triple("module", "m", "mod m")
    );
    assert_eq!(
        of(Construct::Struct { name: String::from("S"), generics: no_generics() }),
        triple("struct", "S", "S")
    );
    assert_eq!(
        of(Construct::Enum {
            name: String::from("E"),
            generics: GenericParams { params: 1, text: String::from("< T >") },
        }),
        triple("enum", "E", "E < T >")
    );
    assert_eq!(
        of(Construct::Trait { name: String::from("T"), generics: no_generics() }),
        triple("trait", "T", "trait T")
    );
    assert_eq!(
        of(Construct::Function {
            name: String::from("f"),
            visibility: String::new(),
            header: String::from("fn f ()"),
        }),
        triple("fn", "f", "fn f ()")
    );
    assert_eq!(
        of(Construct::Impl {
            generics: no_generics(),
            trait_path: Some(String::from("T")),
            self_ty: String::from("S"),
        }),
        triple("impl", "T for S", "impl T for S")
    );
    assert_eq!(of(Construct::Other), None);
}

#[test]
fn index_file_keeps_source_order_and_skips_other_constructs() {
    let decls = vec![
        Declaration { item: Construct::Other, attrs: vec![doc(" lost")], span: span(1, 1) },
        Declaration {
            item: Construct::Function {
                name: String::from("second"),
                visibility: String::from("pub"),
                header: String::from("fn second ()"),
            },
            attrs: vec![doc(" Second.")],
            span: span(2, 4),
        },
        Declaration { item: Construct::Other, attrs: Vec::new(), span: span(5, 5) },
        Declaration {
            item: Construct::Module { name: String::from("first"), inline: false },
            attrs: Vec::new(),
            span: span(6, 6),
        },
    ];
    let entries = index_file("src/x.rs", &decls);
    assert_eq!(
        entries,
        vec![
            IndexEntry {
                kind: String::from("fn"),
                name: String::from("second"),
                file: String::from("src/x.rs"),
                line_start: 2,
                line_end: 4,
                signature: String::from("pub fn second ()"),
                doc_summary: Some(String::from("Second.")),
                doc: Some(String::from(" Second.")),
            },
            IndexEntry {
                kind: String::from("module"),
                name: String::from("first"),
                file: String::from("src/x.rs"),
                line_start: 6,
                line_end: 6,
                signature: String::from("mod first;"),
                doc_summary: None,
                doc: None,
            },
        ]
    );
}

#[test]
fn index_file_of_nothing_indexable_is_empty() {
    assert_eq!(index_file("a.rs", &Vec::new()), Vec::new());
    let decls = vec![
        Declaration { item: Construct::Other, attrs: Vec::new(), span: span(1, 1) },
        Declaration { item: Construct::Other, attrs: Vec::new(), span: span(2, 9) },
    ];
    assert_eq!(index_file("a.rs", &decls), Vec::new());
}

#[test]
fn parse_source_reads_the_facts_of_each_item() {
    let text = "/// Doc.
#[derive(Debug)]
pub struct Pair<T> { a: T }
mod m { }
pub(crate) fn f<'a>(x: &'a u8) -> u8 { *x }
impl<T> Clone for Pair<T> { }
const C: u8 = 0;
";
    let decls = parse_source(text).expect("valid source");
    assert_eq!(decls.len(), 5);

    assert_eq!(
        decls[0],
        Declaration {
            item: Construct::Struct {
                name: String::from("Pair"),
                generics: GenericParams { params: 1, text: String::from("< T >") },
            },
            attrs: vec![
                doc(" Doc."),
                Annotation { ident: Some(String::from("derive")), literal: None },
            ],
            span: span(1, 3),
        }
    );
    assert_eq!(
        decls[1],
        Declaration {
            item: Construct::Module { name: String::from("m"), inline: true },
            attrs: Vec::new(),
            span: span(4, 4),
        }
    );
    assert_eq!(
        decls[2].item,
        Construct::Function {
            name: String::from("f"),
            visibility: String::from("pub (crate)"),
            header: String::from("fn f < 'a > (x : & 'a u8) -> u8"),
        }
    );
    assert_eq!(
        decls[3].item,
        Construct::Impl {
            generics: GenericParams { params: 1, text: String::from("< T >") },
            trait_path: Some(String::from("Clone")),
            self_ty: String::from("Pair < T >"),
        }
    );
    assert_eq!(
        decls[4],
        Declaration { item: Construct::Other, attrs: Vec::new(), span: span(7, 7) }
    );
}

#[test]
fn parse_source_reports_a_syntax_error() {
    let message = parse_source("struct {").expect_err("a syntax error");
    assert!(!message.is_empty());
    assert_eq!(parse_source(""), Ok(Vec::new()));
}

#[test]
fn parse_source_reads_the_path_and_the_literal_of_each_attribute() {
    let text = "#[path = \"sys/unix.rs\"]
#[cfg_attr(test, allow(dead_code))]
#[rustfmt::skip]
#[doc(hidden)]
#[doc = \"kept\"]
#[r#doc = \"raw\"]
#[deprecated = 3]
mod sys;
";
    let decls = parse_source(text).expect("valid source");
    let of = |ident: Option<&str>, literal: Option<&str>| Annotation {
        ident: ident.map(String::from),
        literal: literal.map(String::from),
    };
    assert_eq!(
        decls[0].attrs,
        vec![
            of(Some("path"), Some("sys/unix.rs")),
            of(Some("cfg_attr"), None),
            of(None, None),
            of(Some("doc"), None),
            of(Some("doc"), Some("kept")),
            of(Some("r#doc"), Some("raw")),
            of(Some("deprecated"), None),
        ]
    );
}
