//! Documentation text of a declaration: the full block and its summary line.

use crate::syntax::{Annotation, AnnotationView};
use crate::text::{blank, join, joined, lemma_trimmed_empty_iff_blank, trim, trimmed};
use vstd::prelude::*;
use vstd::string::*;

verus! {

/// The documentation line that an attribute contributes, if it is one:
/// its path is the identifier `doc` and its value is a string literal.
pub open spec fn doc_line(attr: AnnotationView) -> Option<Seq<char>> {
    if attr.ident == Some("doc"@) {
        attr.literal
    } else {
        None
    }
}

/// The documentation lines among `attrs`, in source order.
pub open spec fn doc_lines(attrs: Seq<AnnotationView>) -> Seq<Seq<char>> {
    attrs.filter_map(|attr: AnnotationView| doc_line(attr))
}

/// Whether `line` holds anything but white space.
pub open spec fn visible(line: Seq<char>) -> bool {
    !blank(line)
}

/// Whether `i` is the place of the first visible line of `lines`.
pub open spec fn first_visible(lines: Seq<Seq<char>>, i: int) -> bool {
    &&& 0 <= i < lines.len()
    &&& visible(lines[i])
    &&& forall|j: int| 0 <= j < i ==> !visible(#[trigger] lines[j])
}

/// The summary of a documentation block: its first visible line, trimmed.
pub open spec fn summary_of(lines: Seq<Seq<char>>) -> Option<Seq<char>> {
    if exists|i: int| first_visible(lines, i) {
        Some(trimmed(lines[choose|i: int| first_visible(lines, i)]))
    } else {
        None
    }
}

/// The full documentation block: the lines as they are, joined by newlines.
pub open spec fn doc_of(lines: Seq<Seq<char>>) -> Option<Seq<char>> {
    if lines.len() == 0 {
        None
    } else {
        Some(joined(lines, seq!['\n']))
    }
}

/// A block has a summary exactly when one of its lines is visible.
pub proof fn lemma_summary_exists(lines: Seq<Seq<char>>)
    ensures
        summary_of(lines) is None <==> forall|i: int|
            0 <= i < lines.len() ==> !visible(#[trigger] lines[i]),
        summary_of(lines) is Some ==> doc_of(lines) is Some,
{
    if exists|i: int| 0 <= i < lines.len() && visible(#[trigger] lines[i]) {
        let i = choose|i: int| 0 <= i < lines.len() && visible(#[trigger] lines[i]);
        lemma_least_visible(lines, i);
    }
}

/// Below any visible line there is a first one.
proof fn lemma_least_visible(lines: Seq<Seq<char>>, i: int)
    requires
        0 <= i < lines.len(),
        visible(lines[i]),
    ensures
        exists|k: int| first_visible(lines, k),
    decreases i,
{
    if exists|j: int| 0 <= j < i && visible(#[trigger] lines[j]) {
        let j = choose|j: int| 0 <= j < i && visible(#[trigger] lines[j]);
        lemma_least_visible(lines, j);
    } else {
        assert(first_visible(lines, i));
    }
}

/// The documentation lines that `attrs` hold, in source order.
pub fn collect_doc_lines(attrs: &Vec<Annotation>) -> (lines: Vec<String>)
    ensures
        lines.deep_view() == doc_lines(attrs.deep_view()),
{
    let doc = String::from_str("doc");
    let mut lines: Vec<String> = Vec::new();
    let mut i: usize = 0;
    while i < attrs.len()
        invariant
            i <= attrs.len(),
            doc@ == "doc"@,
            lines.deep_view() == doc_lines(attrs.deep_view().take(i as int)),
        decreases attrs.len() - i,
    {
        let attr = &attrs[i];
        proof {
            attrs.deep_view().lemma_filter_map_take_succ(|a: AnnotationView| doc_line(a), i as int);
        }
        if let (Some(ident), Some(text)) = (&attr.ident, &attr.literal) {
            if *ident == doc {
                lines.push(text.clone());
            }
        }
        i = i + 1;
    }
    assert(attrs.deep_view().take(i as int) =~= attrs.deep_view());
    lines
}

/// The summary line and the full documentation block that the lines
/// `lines` make.
///
/// Both are `None` when there is no line. The block is the lines joined by
/// `\n`, each exactly as it is. The summary is the first line that is not
/// blank, trimmed; it is `None` when every line is blank, also where the
/// block is not.
pub fn summarize(lines: &Vec<String>) -> (r: (Option<String>, Option<String>))
    ensures
        r.0.deep_view() == summary_of(lines.deep_view()),
        r.1.deep_view() == doc_of(lines.deep_view()),
{
    if lines.len() == 0 {
        return (None, None);
    }
    proof {
        reveal_strlit("\n");
        assert("\n"@ =~= seq!['\n']);
    }
    let doc = join(lines, "\n");
    let ghost all = lines.deep_view();
    let mut i: usize = 0;
    while i < lines.len()
        invariant
            i <= lines.len(),
            all == lines.deep_view(),
            all.len() > 0,
            doc@ == joined(all, seq!['\n']),
            forall|j: int| 0 <= j < i ==> !visible(#[trigger] all[j]),
        decreases lines.len() - i,
    {
        let kept = trim(lines[i].as_str());
        proof {
            lemma_trimmed_empty_iff_blank(all[i as int]);
        }
        if !kept.is_empty() {
            assert(first_visible(all, i as int));
            return (Some(kept.to_owned()), Some(doc));
        }
        i = i + 1;
    }
    proof {
        lemma_summary_exists(all);
    }
    (None, Some(doc))
}

/// The summary line and the full documentation block of a declaration
/// with the attributes `attrs`: those that its documentation lines make.
/// Attributes that are no documentation lines are ignored.
pub fn extract_docs(attrs: &Vec<Annotation>) -> (r: (Option<String>, Option<String>))
    ensures
        r.0.deep_view() == summary_of(doc_lines(attrs.deep_view())),
        r.1.deep_view() == doc_of(doc_lines(attrs.deep_view())),
{
    summarize(&collect_doc_lines(attrs))
}

} // verus!
