//! The index entry, and how one is built from a declaration's facts.

use crate::docs::{doc_lines, doc_of, extract_docs, lemma_summary_exists, summary_of};
use crate::syntax::{Annotation, AnnotationView, LineSpan};
use vstd::prelude::*;
use vstd::string::*;

verus! {

/// The class of an indexed declaration.
#[derive(Debug, Clone, Copy, PartialEq, Eq)]
pub enum Kind {
    Module,
    Struct,
    Enum,
    Trait,
    Fn,
    Impl,
}

/// The tag under which a class of declaration is indexed.
pub open spec fn kind_tag(kind: Kind) -> Seq<char> {
    match kind {
        Kind::Module => "module"@,
        Kind::Struct => "struct"@,
        Kind::Enum => "enum"@,
        Kind::Trait => "trait"@,
        Kind::Fn => "fn"@,
        Kind::Impl => "impl"@,
    }
}

impl Kind {
    /// The tag of this class: `module`, `struct`, `enum`, `trait`, `fn` or
    /// `impl`.
    pub fn tag(&self) -> (r: &'static str)
        ensures
            r@ == kind_tag(*self),
    {
        match self {
            Kind::Module => "module",
            Kind::Struct => "struct",
            Kind::Enum => "enum",
            Kind::Trait => "trait",
            Kind::Fn => "fn",
            Kind::Impl => "impl",
        }
    }
}

/// One record of the index: a top-level declaration with its place, its
/// signature and its documentation.
#[derive(Debug, Clone, PartialEq, Eq)]
pub struct IndexEntry {
    /// The tag of the declaration's class.
    pub kind: String,
    /// The declared name; for an implementation block, `Trait for Type` or
    /// the target type.
    pub name: String,
    /// The path of the source file, relative to the project root.
    pub file: String,
    /// The first line of the declaration, counted from 1.
    pub line_start: u32,
    /// The last line of the declaration, counted from 1.
    pub line_end: u32,
    /// The declaration's header on one line.
    pub signature: String,
    /// The first line of documentation that is not blank, trimmed.
    pub doc_summary: Option<String>,
    /// The documentation lines joined by newlines.
    pub doc: Option<String>,
}

/// The mathematical value of an [`IndexEntry`].
pub struct IndexEntryView {
    pub kind: Seq<char>,
    pub name: Seq<char>,
    pub file: Seq<char>,
    pub line_start: nat,
    pub line_end: nat,
    pub signature: Seq<char>,
    pub doc_summary: Option<Seq<char>>,
    pub doc: Option<Seq<char>>,
}

impl IndexEntryView {
    /// What holds of every entry of an index: its kind is one of the six
    /// tags, its lines are in order, and it has no summary without a
    /// documentation block.
    pub open spec fn wf(self) -> bool {
        &&& exists|kind: Kind| self.kind == kind_tag(kind)
        &&& self.line_start <= self.line_end
        &&& self.doc_summary is Some ==> self.doc is Some
    }
}

impl View for IndexEntry {
    type V = IndexEntryView;

    open spec fn view(&self) -> IndexEntryView {
        IndexEntryView {
            kind: self.kind@,
            name: self.name@,
            file: self.file@,
            line_start: self.line_start as nat,
            line_end: self.line_end as nat,
            signature: self.signature@,
            doc_summary: self.doc_summary.deep_view(),
            doc: self.doc.deep_view(),
        }
    }
}

impl DeepView for IndexEntry {
    type V = IndexEntryView;

    open spec fn deep_view(&self) -> IndexEntryView {
        self@
    }
}

/// The entry of a declaration of class `kind` in the file `file`, with the
/// given name, lines, attributes and signature.
pub open spec fn entry_view(
    kind: Kind,
    name: Seq<char>,
    file: Seq<char>,
    line_start: nat,
    line_end: nat,
    attrs: Seq<AnnotationView>,
    signature: Seq<char>,
) -> IndexEntryView {
    IndexEntryView {
        kind: kind_tag(kind),
        name,
        file,
        line_start,
        line_end,
        signature,
        doc_summary: summary_of(doc_lines(attrs)),
        doc: doc_of(doc_lines(attrs)),
    }
}

/// The first and the last line of a span, both counted from 1.
pub fn line_range(span: &LineSpan) -> (r: (u32, u32))
    ensures
        r.0 == span.first(),
        r.1 == span.last(),
        r.0 <= r.1,
{
    (span.start_line(), span.end_line())
}

/// Assembles the entry of one declaration: the documentation comes from
/// `attrs`, the lines from `span`, the rest is taken as given.
pub fn build_entry(
    kind: Kind,
    name: &str,
    file: &str,
    span: &LineSpan,
    attrs: &Vec<Annotation>,
    signature: String,
) -> (r: IndexEntry)
    ensures
        r@ == entry_view(
            kind,
            name@,
            file@,
            span.first(),
            span.last(),
            attrs.deep_view(),
            signature@,
        ),
        r@.wf(),
{
    let (doc_summary, doc) = extract_docs(attrs);
    let (line_start, line_end) = line_range(span);
    proof {
        lemma_summary_exists(doc_lines(attrs.deep_view()));
    }
    IndexEntry {
        kind: kind.tag().to_owned(),
        name: name.to_owned(),
        file: file.to_owned(),
        line_start,
        line_end,
        signature,
        doc_summary,
        doc,
    }
}

} // verus!
