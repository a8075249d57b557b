//! The plain-data model of a parsed source file: what the extraction engine
//! reads of each top-level declaration. Texts are kept as the parser prints
//! them, token by token.

use vstd::prelude::*;

verus! {

/// One attribute attached to a declaration. A documentation comment line is
/// recorded by the parser as the attribute `doc = "text of the line"`.
#[derive(Debug, Clone, PartialEq, Eq)]
pub struct Annotation {
    /// The attribute's path, where that is a single identifier: `doc` for
    /// `#[doc = ".."]` and `#[doc(hidden)]`, nothing for `#[a::b]`.
    pub ident: Option<String>,
    /// The value of the string literal, if the attribute has the form
    /// `path = "literal"`.
    pub literal: Option<String>,
}

/// The mathematical value of an [`Annotation`].
pub struct AnnotationView {
    pub ident: Option<Seq<char>>,
    pub literal: Option<Seq<char>>,
}

impl View for Annotation {
    type V = AnnotationView;

    open spec fn view(&self) -> AnnotationView {
        AnnotationView { ident: self.ident.deep_view(), literal: self.literal.deep_view() }
    }
}

impl DeepView for Annotation {
    type V = AnnotationView;

    open spec fn deep_view(&self) -> AnnotationView {
        self@
    }
}

/// The generic parameter list of a declaration.
#[derive(Debug, Clone, PartialEq, Eq)]
pub struct GenericParams {
    /// How many parameters the list holds.
    pub params: usize,
    /// The text of the list, angle brackets and bounds included; empty
    /// when there are no parameters.
    pub text: String,
}

/// The mathematical value of a [`GenericParams`].
pub struct GenericParamsView {
    pub params: nat,
    pub text: Seq<char>,
}

impl View for GenericParams {
    type V = GenericParamsView;

    open spec fn view(&self) -> GenericParamsView {
        GenericParamsView { params: self.params as nat, text: self.text@ }
    }
}

/// The class of a top-level declaration with the syntactic facts that its
/// index entry is built from.
#[derive(Debug, Clone, PartialEq, Eq)]
pub enum Construct {
    /// `mod name;` or `mod name { .. }`; `inline` tells the second form.
    Module { name: String, inline: bool },
    /// A struct definition.
    Struct { name: String, generics: GenericParams },
    /// An enum definition.
    Enum { name: String, generics: GenericParams },
    /// A trait definition.
    Trait { name: String, generics: GenericParams },
    /// A free function: the text of its visibility, which is empty for a
    /// private function, and the text of the rest of its header, from the
    /// qualifiers to the `where` clause.
    Function { name: String, visibility: String, header: String },
    /// An implementation block, inherent when `trait_path` is `None`:
    /// the texts of the implemented trait's path and of the target type,
    /// generic arguments included.
    Impl { generics: GenericParams, trait_path: Option<String>, self_ty: String },
    /// Any other top-level construct: a constant, a static, a type alias, a
    /// use-import, a macro, an extern block, a union.
    Other,
}

/// The mathematical value of a [`Construct`].
pub enum ConstructView {
    Module { name: Seq<char>, inline: bool },
    Struct { name: Seq<char>, generics: GenericParamsView },
    Enum { name: Seq<char>, generics: GenericParamsView },
    Trait { name: Seq<char>, generics: GenericParamsView },
    Function { name: Seq<char>, visibility: Seq<char>, header: Seq<char> },
    Impl { generics: GenericParamsView, trait_path: Option<Seq<char>>, self_ty: Seq<char> },
    Other,
}

impl View for Construct {
    type V = ConstructView;

    open spec fn view(&self) -> ConstructView {
        match *self {
            Construct::Module { name, inline } => ConstructView::Module { name: name@, inline },
            Construct::Struct { name, generics } => ConstructView::Struct {
                name: name@,
                generics: generics@,
            },
            Construct::Enum { name, generics } => ConstructView::Enum {
                name: name@,
                generics: generics@,
            },
            Construct::Trait { name, generics } => ConstructView::Trait {
                name: name@,
                generics: generics@,
            },
            Construct::Function { name, visibility, header } => ConstructView::Function {
                name: name@,
                visibility: visibility@,
                header: header@,
            },
            Construct::Impl { generics, trait_path, self_ty } => ConstructView::Impl {
                generics: generics@,
                trait_path: trait_path.deep_view(),
                self_ty: self_ty@,
            },
            Construct::Other => ConstructView::Other,
        }
    }
}

/// The lines that a declaration covers, both 1-based and inclusive. The
/// first line is never after the last.
#[derive(Debug, Clone, Copy, PartialEq, Eq)]
pub struct LineSpan {
    start: u32,
    end: u32,
}

impl LineSpan {
    /// What holds of every span: its first line is not after its last.
    #[verifier::type_invariant]
    pub closed spec fn ordered(self) -> bool {
        self.start <= self.end
    }

    /// The line on which the declaration starts.
    pub closed spec fn first(self) -> nat {
        self.start as nat
    }

    /// The line on which the declaration ends.
    pub closed spec fn last(self) -> nat {
        self.end as nat
    }

    /// The span from line `start` to line `end`, if that is a span: `start`
    /// is not after `end`, and both fit the 32 bits of a line number.
    pub fn new(start: usize, end: usize) -> (r: Option<LineSpan>)
        ensures
            r is Some <==> start <= end <= u32::MAX,
            r matches Some(span) ==> span.first() == start && span.last() == end,
    {
        if start <= end && end <= u32::MAX as usize {
            Some(LineSpan { start: start as u32, end: end as u32 })
        } else {
            None
        }
    }

    /// The line on which the declaration starts.
    pub fn start_line(&self) -> (r: u32)
        ensures
            r == self.first(),
            r <= self.last(),
    {
        proof {
            use_type_invariant(self);
        }
        self.start
    }

    /// The line on which the declaration ends.
    pub fn end_line(&self) -> (r: u32)
        ensures
            r == self.last(),
            self.first() <= r,
    {
        proof {
            use_type_invariant(self);
        }
        self.end
    }
}

/// One top-level declaration of a parsed file.
#[derive(Debug, Clone, PartialEq, Eq)]
pub struct Declaration {
    pub item: Construct,
    /// The attributes attached to the declaration, in source order. Outer
    /// and inner documentation comments are among them, one attribute for
    /// each line.
    pub attrs: Vec<Annotation>,
    /// The lines from the declaration's first token to its last.
    pub span: LineSpan,
}

/// The mathematical value of a [`Declaration`].
pub struct DeclarationView {
    pub item: ConstructView,
    pub attrs: Seq<AnnotationView>,
    pub line_start: nat,
    pub line_end: nat,
}

impl View for Declaration {
    type V = DeclarationView;

    open spec fn view(&self) -> DeclarationView {
        DeclarationView {
            item: self.item@,
            attrs: self.attrs.deep_view(),
            line_start: self.span.first(),
            line_end: self.span.last(),
        }
    }
}

impl DeepView for Declaration {
    type V = DeclarationView;

    open spec fn deep_view(&self) -> DeclarationView {
        self@
    }
}

} // verus!
