//! Reading source text with `syn`, and turning each top-level item of the
//! syntax tree into the plain-data model of `crate::syntax`.
//!
//! The parser is not verified. What it finds in a text goes by two names
//! here, [`parsed`] and [`declarations`], and the functions that call into
//! `syn`, `quote` and `proc-macro2` say no more than that each hands out its
//! part of the named value. They are meant for an ordinary process, where
//! `proc-macro2` keeps the line of every token, not for the inside of a
//! procedural macro.

use crate::syntax::{Annotation, Construct, Declaration, DeclarationView, GenericParams, LineSpan};
use quote::ToTokens;
use syn::spanned::Spanned;
use syn::{Expr, ExprLit, Lit, Meta, MetaNameValue};
use vstd::prelude::*;
use vstd::string::*;

verus! {

/// `syn::File`, the syntax tree of a source file. Nothing of it is seen
/// here but what the functions below hand out.
#[verifier::external_type_specification]
#[verifier::external_body]
pub struct ExFile(syn::File);

/// What `syn::parse_file` makes of a source text: the top-level items of
/// the file in source order, each as the facts that this crate reads of it
/// (see [`declarations`]), or the message of the syntax error.
pub uninterp spec fn parsed(text: Seq<char>) -> Result<Seq<DeclarationView>, Seq<char>>;

/// The top-level items that a syntax tree holds, in source order, each as
/// the facts that this crate reads of it: the class of the item with its
/// name and the printed form of its parts, its attributes, and the lines of
/// its first and last token. Of an item that is not of one of the six
/// indexed classes only the lines are read: it is `ConstructView::Other`
/// and has no attributes here.
///
/// Each function below that takes a syntax tree reads one of these facts
/// from it, and its contract says which.
pub uninterp spec fn declarations(file: syn::File) -> Seq<DeclarationView>;

/// `syn::parse_file`: the syntax tree of a whole source file, or the
/// `Display` text of the `syn::Error`. The contract claims that the outcome
/// depends on the text alone, and gives it its name.
#[verifier::external_body]
fn parse_file(text: &str) -> (r: Result<syn::File, String>)
    ensures
        match r {
            Ok(file) => parsed(text@) == Ok::<Seq<DeclarationView>, Seq<char>>(declarations(file)),
            Err(message) => parsed(text@) == Err::<Seq<DeclarationView>, Seq<char>>(message@),
        },
{
    match syn::parse_file(text) {
        Ok(file) => Ok(file),
        Err(err) => Err(err.to_string()),
    }
}

/// The length of the field `items` of a `syn::File`: the number of its
/// top-level items.
#[verifier::external_body]
fn item_count(file: &syn::File) -> (r: usize)
    ensures
        r == declarations(*file).len(),
{
    file.items.len()
}

/// Item `i` if it is a `syn::Item::Mod`: the text of its identifier, and
/// whether its field `content` holds a body in braces.
#[verifier::external_body]
fn as_module(file: &syn::File, i: usize) -> (r: Option<Construct>)
    requires
        i < declarations(*file).len(),
    ensures
        r is Some <==> declarations(*file)[i as int].item is Module,
        r matches Some(found) ==> found@ == declarations(*file)[i as int].item,
{
    match &file.items[i] {
        syn::Item::Mod(m) => Some(
            Construct::Module { name: m.ident.to_string(), inline: m.content.is_some() },
        ),
        _ => None,
    }
}

/// Item `i` if it is a `syn::Item::Struct`: the text of its identifier,
/// the number of its generic parameters, and the text of the tokens that
/// `quote::ToTokens` gives for its `syn::Generics`.
#[verifier::external_body]
fn as_struct(file: &syn::File, i: usize) -> (r: Option<Construct>)
    requires
        i < declarations(*file).len(),
    ensures
        r is Some <==> declarations(*file)[i as int].item is Struct,
        r matches Some(found) ==> found@ == declarations(*file)[i as int].item,
{
    match &file.items[i] {
        syn::Item::Struct(s) => Some(
            Construct::Struct {
                name: s.ident.to_string(),
                generics: GenericParams {
                    params: s.generics.params.len(),
                    text: s.generics.to_token_stream().to_string(),
                },
            },
        ),
        _ => None,
    }
}

/// Item `i` if it is a `syn::Item::Enum`: the text of its identifier, the
/// number of its generic parameters, and the text of the tokens that
/// `quote::ToTokens` gives for its `syn::Generics`.
#[verifier::external_body]
fn as_enum(file: &syn::File, i: usize) -> (r: Option<Construct>)
    requires
        i < declarations(*file).len(),
    ensures
        r is Some <==> declarations(*file)[i as int].item is Enum,
        r matches Some(found) ==> found@ == declarations(*file)[i as int].item,
{
    match &file.items[i] {
        syn::Item::Enum(e) => Some(
            Construct::Enum {
                name: e.ident.to_string(),
                generics: GenericParams {
                    params: e.generics.params.len(),
                    text: e.generics.to_token_stream().to_string(),
                },
            },
        ),
        _ => None,
    }
}

/// Item `i` if it is a `syn::Item::Trait`: the text of its identifier,
/// the number of its generic parameters, and the text of the tokens that
/// `quote::ToTokens` gives for its `syn::Generics`.
#[verifier::external_body]
fn as_trait(file: &syn::File, i: usize) -> (r: Option<Construct>)
    requires
        i < declarations(*file).len(),
    ensures
        r is Some <==> declarations(*file)[i as int].item is Trait,
        r matches Some(found) ==> found@ == declarations(*file)[i as int].item,
{
    match &file.items[i] {
        syn::Item::Trait(t) => Some(
            Construct::Trait {
                name: t.ident.to_string(),
                generics: GenericParams {
                    params: t.generics.params.len(),
                    text: t.generics.to_token_stream().to_string(),
                },
            },
        ),
        _ => None,
    }
}

/// Item `i` if it is a `syn::Item::Fn`: the text of its identifier, and
/// the texts of the tokens that `quote::ToTokens` gives for its
/// `syn::Visibility` and for its `syn::Signature`.
#[verifier::external_body]
fn as_function(file: &syn::File, i: usize) -> (r: Option<Construct>)
    requires
        i < declarations(*file).len(),
    ensures
        r is Some <==> declarations(*file)[i as int].item is Function,
        r matches Some(found) ==> found@ == declarations(*file)[i as int].item,
{
    match &file.items[i] {
        syn::Item::Fn(f) => Some(
            Construct::Function {
                name: f.sig.ident.to_string(),
                visibility: f.vis.to_token_stream().to_string(),
                header: f.sig.to_token_stream().to_string(),
            },
        ),
        _ => None,
    }
}

/// Item `i` if it is a `syn::Item::Impl`: the number of its generic
/// parameters, and the texts of the tokens that `quote::ToTokens` gives for
/// its `syn::Generics` and for its target type.
#[verifier::external_body]
fn impl_target(file: &syn::File, i: usize) -> (r: Option<(GenericParams, String)>)
    requires
        i < declarations(*file).len(),
    ensures
        r is Some <==> declarations(*file)[i as int].item is Impl,
        r matches Some(found) ==> found.0@ == declarations(*file)[i as int].item->Impl_generics
            && found.1@ == declarations(*file)[i as int].item->self_ty,
{
    match &file.items[i] {
        syn::Item::Impl(b) => Some(
            (
                GenericParams {
                    params: b.generics.params.len(),
                    text: b.generics.to_token_stream().to_string(),
                },
                b.self_ty.to_token_stream().to_string(),
            ),
        ),
        _ => None,
    }
}

/// The text of the tokens that `quote::ToTokens` gives for the path of
/// the trait that item `i` implements, if the item is a `syn::Item::Impl`
/// whose field `trait_` holds one.
#[verifier::external_body]
fn impl_trait_path(file: &syn::File, i: usize) -> (r: Option<String>)
    requires
        i < declarations(*file).len(),
    ensures
        declarations(*file)[i as int].item is Impl ==> r.deep_view() == declarations(
            *file,
        )[i as int].item->trait_path,
{
    match &file.items[i] {
        syn::Item::Impl(syn::ItemImpl { trait_: Some((_, path, _)), .. }) => Some(
            path.to_token_stream().to_string(),
        ),
        _ => None,
    }
}

/// The length of the field `attrs` of item `i`, where the item is of one of
/// the six indexed classes; zero for any other item.
#[verifier::external_body]
fn attribute_count(file: &syn::File, i: usize) -> (r: usize)
    requires
        i < declarations(*file).len(),
    ensures
        r == declarations(*file)[i as int].attrs.len(),
{
    match &file.items[i] {
        syn::Item::Mod(x) => x.attrs.len(),
        syn::Item::Struct(x) => x.attrs.len(),
        syn::Item::Enum(x) => x.attrs.len(),
        syn::Item::Trait(x) => x.attrs.len(),
        syn::Item::Fn(x) => x.attrs.len(),
        syn::Item::Impl(x) => x.attrs.len(),
        _ => 0,
    }
}

/// `syn::Attribute::path` and `syn::Path::get_ident` on attribute `j` of
/// item `i`: the text of the attribute's path, where the path is a single
/// identifier.
#[verifier::external_body]
fn path_ident(file: &syn::File, i: usize, j: usize) -> (r: Option<String>)
    requires
        i < declarations(*file).len(),
        j < declarations(*file)[i as int].attrs.len(),
    ensures
        r.deep_view() == declarations(*file)[i as int].attrs[j as int].ident,
{
    let attrs: &[syn::Attribute] = match &file.items[i] {
        syn::Item::Mod(x) => &x.attrs,
        syn::Item::Struct(x) => &x.attrs,
        syn::Item::Enum(x) => &x.attrs,
        syn::Item::Trait(x) => &x.attrs,
        syn::Item::Fn(x) => &x.attrs,
        syn::Item::Impl(x) => &x.attrs,
        _ => &[],
    };
    match attrs[j].path().get_ident() {
        Some(ident) => Some(ident.to_string()),
        None => None,
    }
}

/// `syn::LitStr::value` on attribute `j` of item `i`, where the attribute
/// has the form `path = "literal"`: the literal's value, with its escapes
/// resolved.
#[verifier::external_body]
fn string_value(file: &syn::File, i: usize, j: usize) -> (r: Option<String>)
    requires
        i < declarations(*file).len(),
        j < declarations(*file)[i as int].attrs.len(),
    ensures
        r.deep_view() == declarations(*file)[i as int].attrs[j as int].literal,
{
    let attrs: &[syn::Attribute] = match &file.items[i] {
        syn::Item::Mod(x) => &x.attrs,
        syn::Item::Struct(x) => &x.attrs,
        syn::Item::Enum(x) => &x.attrs,
        syn::Item::Trait(x) => &x.attrs,
        syn::Item::Fn(x) => &x.attrs,
        syn::Item::Impl(x) => &x.attrs,
        _ => &[],
    };
    match &attrs[j].meta {
        Meta::NameValue(MetaNameValue { value: Expr::Lit(ExprLit { lit: Lit::Str(s), .. }), .. }) =>
            Some(s.value()),
        _ => None,
    }
}

/// `syn::spanned::Spanned::span` on item `i`, then `proc_macro2::Span::start`
/// and `end`: the lines of the item's first and last token.
#[verifier::external_body]
fn item_lines(file: &syn::File, i: usize) -> (r: (usize, usize))
    requires
        i < declarations(*file).len(),
    ensures
        r.0 == declarations(*file)[i as int].line_start,
        r.1 == declarations(*file)[i as int].line_end,
{
    let span = file.items[i].span();
    (span.start().line, span.end().line)
}

/// Whether the lines of a declaration are a [`LineSpan`]: the first is not
/// after the last, and both fit the 32 bits of a line number.
pub open spec fn in_line_range(decl: DeclarationView) -> bool {
    decl.line_start <= decl.line_end <= u32::MAX
}

/// The message with which a file is refused when the parser places one of
/// its declarations on lines that are no span.
pub open spec fn out_of_range_message() -> Seq<char> {
    "declaration outside the line range"@
}

/// The declarations of a source text: what the parser finds in it, unless
/// the text has a syntax error or a declaration lies outside the line
/// range.
pub open spec fn source_declarations(text: Seq<char>) -> Result<Seq<DeclarationView>, Seq<char>> {
    match parsed(text) {
        Ok(decls) => if forall|i: int| 0 <= i < decls.len() ==> in_line_range(#[trigger] decls[i]) {
            Ok(decls)
        } else {
            Err(out_of_range_message())
        },
        Err(message) => Err(message),
    }
}

/// The class of item `i` of a syntax tree, with the facts that its entry
/// is built from.
fn construct_of(file: &syn::File, i: usize) -> (r: Construct)
    requires
        i < declarations(*file).len(),
    ensures
        r@ == declarations(*file)[i as int].item,
{
    if let Some(found) = as_module(file, i) {
        found
    } else if let Some(found) = as_struct(file, i) {
        found
    } else if let Some(found) = as_enum(file, i) {
        found
    } else if let Some(found) = as_trait(file, i) {
        found
    } else if let Some(found) = as_function(file, i) {
        found
    } else if let Some((generics, self_ty)) = impl_target(file, i) {
        Construct::Impl { generics, trait_path: impl_trait_path(file, i), self_ty }
    } else {
        Construct::Other
    }
}

/// The attributes of item `i` of a syntax tree, in source order.
fn annotations_of(file: &syn::File, i: usize) -> (r: Vec<Annotation>)
    requires
        i < declarations(*file).len(),
    ensures
        r.deep_view() == declarations(*file)[i as int].attrs,
{
    let count = attribute_count(file, i);
    let mut found: Vec<Annotation> = Vec::new();
    let mut j: usize = 0;
    while j < count
        invariant
            i < declarations(*file).len(),
            count == declarations(*file)[i as int].attrs.len(),
            j <= count,
            found.deep_view() == declarations(*file)[i as int].attrs.take(j as int),
        decreases count - j,
    {
        let ghost before = found.deep_view();
        let attr = Annotation {
            ident: path_ident(file, i, j),
            literal: string_value(file, i, j),
        };
        found.push(attr);
        assert(found.deep_view() =~= before.push(attr@));
        j = j + 1;
    }
    assert(declarations(*file)[i as int].attrs.take(j as int) =~= declarations(
        *file,
    )[i as int].attrs);
    found
}

/// The top-level declarations of the source text `text`, in source order:
/// one for each top-level item that the parser finds. Of a construct that
/// is not indexed only the lines are recorded. Fails with the parser's
/// message where the text has a syntax error, and with a message of its own
/// where a declaration lies outside the line range.
pub fn parse_source(text: &str) -> (r: Result<Vec<Declaration>, String>)
    ensures
        match source_declarations(text@) {
            Ok(decls) => r matches Ok(found) && found.deep_view() == decls,
            Err(message) => r matches Err(told) && told@ == message,
        },
{
    match parse_file(text) {
        Err(message) => Err(message),
        Ok(file) => {
            let count = item_count(&file);
            let mut found: Vec<Declaration> = Vec::new();
            let mut i: usize = 0;
            while i < count
                invariant
                    parsed(text@) == Ok::<Seq<DeclarationView>, Seq<char>>(declarations(file)),
                    count == declarations(file).len(),
                    i <= count,
                    found.deep_view() == declarations(file).take(i as int),
                    forall|k: int| 0 <= k < i ==> in_line_range(#[trigger] declarations(file)[k]),
                decreases count - i,
            {
                let ghost before = found.deep_view();
                let (first, last) = item_lines(&file, i);
                match LineSpan::new(first, last) {
                    Some(span) => {
                        let decl = Declaration {
                            item: construct_of(&file, i),
                            attrs: annotations_of(&file, i),
                            span,
                        };
                        found.push(decl);
                        assert(found.deep_view() =~= before.push(decl@));
                    },
                    None => {
                        return Err(String::from_str("declaration outside the line range"));
                    },
                }
                i = i + 1;
            }
            Ok(found)
        },
    }
}

} // verus!
