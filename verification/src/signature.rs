//! The one-line signature of each class of declaration.

use crate::syntax::{GenericParams, GenericParamsView};
use crate::text::{join, joined};
use vstd::prelude::*;
use vstd::string::*;

verus! {

/// `mod name` for a module with an inline body, `mod name;` for one whose
/// body lives in another file.
pub open spec fn module_text(name: Seq<char>, inline: bool) -> Seq<char> {
    if inline {
        "mod "@ + name
    } else {
        "mod "@ + name + ";"@
    }
}

/// The name of a struct or an enum, followed by its generic parameter list
/// if it has parameters.
pub open spec fn type_text(name: Seq<char>, generics: GenericParamsView) -> Seq<char> {
    if generics.params == 0 {
        name
    } else {
        name + " "@ + generics.text
    }
}

/// `trait name`, followed by the generic parameter list if the trait has
/// parameters.
pub open spec fn trait_text(name: Seq<char>, generics: GenericParamsView) -> Seq<char> {
    if generics.params == 0 {
        "trait "@ + name
    } else {
        "trait "@ + name + " "@ + generics.text
    }
}

/// The header of a function: its visibility, where it has one, and the rest
/// of the header.
pub open spec fn fn_text(visibility: Seq<char>, header: Seq<char>) -> Seq<char> {
    if visibility.len() == 0 {
        header
    } else {
        visibility + " "@ + header
    }
}

/// The parts of an implementation block's signature: `impl`, the generic
/// parameter list if there are parameters, the trait path and `for` if a
/// trait is implemented, and the target type.
pub open spec fn impl_parts(
    generics: GenericParamsView,
    trait_path: Option<Seq<char>>,
    self_ty: Seq<char>,
) -> Seq<Seq<char>> {
    let head = if generics.params == 0 {
        seq!["impl"@]
    } else {
        seq!["impl"@, generics.text]
    };
    match trait_path {
        Some(path) => head + seq![path, "for"@, self_ty],
        None => head + seq![self_ty],
    }
}

/// The signature of an implementation block: its parts with one space
/// between neighbours.
pub open spec fn impl_text(
    generics: GenericParamsView,
    trait_path: Option<Seq<char>>,
    self_ty: Seq<char>,
) -> Seq<char> {
    joined(impl_parts(generics, trait_path, self_ty), " "@)
}

/// The display name of an implementation block: `Trait for Type` where a
/// trait is implemented, the target type alone otherwise.
pub open spec fn impl_name_text(trait_path: Option<Seq<char>>, self_ty: Seq<char>) -> Seq<char> {
    match trait_path {
        Some(path) => path + " for "@ + self_ty,
        None => self_ty,
    }
}

/// Whether `s` holds no newline.
pub open spec fn single_line(s: Seq<char>) -> bool {
    forall|i: int| 0 <= i < s.len() ==> s[i] != '\n'
}

/// Parts without a newline, joined by a separator without one, give a text
/// without one.
pub proof fn lemma_joined_single_line(parts: Seq<Seq<char>>, sep: Seq<char>)
    requires
        forall|i: int| 0 <= i < parts.len() ==> single_line(#[trigger] parts[i]),
        single_line(sep),
    ensures
        single_line(joined(parts, sep)),
    decreases parts.len(),
{
    if parts.len() > 1 {
        lemma_joined_single_line(parts.drop_last(), sep);
    }
}

/// A signature is a single line: it holds no newline unless one of the
/// texts it is made of does.
pub proof fn lemma_signature_single_line(
    name: Seq<char>,
    inline: bool,
    generics: GenericParamsView,
    visibility: Seq<char>,
    header: Seq<char>,
    trait_path: Option<Seq<char>>,
    self_ty: Seq<char>,
)
    ensures
        single_line(name) ==> single_line(module_text(name, inline)),
        single_line(name) && single_line(generics.text) ==> single_line(type_text(name, generics)),
        single_line(name) && single_line(generics.text) ==> single_line(
            trait_text(name, generics),
        ),
        single_line(visibility) && single_line(header) ==> single_line(
            fn_text(visibility, header),
        ),
        single_line(generics.text) && single_line(self_ty) && (trait_path matches Some(path)
            ==> single_line(path)) ==> single_line(impl_text(generics, trait_path, self_ty)),
{
    reveal_strlit("mod ");
    reveal_strlit(";");
    reveal_strlit(" ");
    reveal_strlit("trait ");
    reveal_strlit("impl");
    reveal_strlit("for");
    if single_line(generics.text) && single_line(self_ty) && (trait_path matches Some(path)
        ==> single_line(path)) {
        lemma_joined_single_line(impl_parts(generics, trait_path, self_ty), " "@);
    }
}

/// The signature of an implementation block is `impl`, its generic
/// parameter list if it has parameters, and its display name, each
/// followed by one space but the last: so that of a trait implementation
/// reads `impl Trait for Type`, with the word `for` between the two.
pub proof fn lemma_impl_signature_shape(
    generics: GenericParamsView,
    trait_path: Option<Seq<char>>,
    self_ty: Seq<char>,
)
    ensures
        generics.params == 0 ==> impl_text(generics, trait_path, self_ty) == "impl "@
            + impl_name_text(trait_path, self_ty),
        generics.params != 0 ==> impl_text(generics, trait_path, self_ty) == "impl "@
            + generics.text + " "@ + impl_name_text(trait_path, self_ty),
        trait_path matches Some(path) ==> impl_name_text(trait_path, self_ty) == path + " for "@
            + self_ty,
{
    reveal_strlit("impl");
    reveal_strlit("impl ");
    reveal_strlit("for");
    reveal_strlit(" for ");
    reveal_strlit(" ");
    reveal_with_fuel(joined, 5);
}

/// The signature of the module `name`.
pub fn module_signature(name: &str, inline: bool) -> (r: String)
    ensures
        r@ == module_text(name@, inline),
{
    let mut out = String::from_str("mod ");
    out.append(name);
    if !inline {
        out.append(";");
    }
    out
}

/// The signature of the struct or enum `name`.
pub fn type_signature(name: &str, generics: &GenericParams) -> (r: String)
    ensures
        r@ == type_text(name@, generics@),
{
    let mut out = String::from_str(name);
    if generics.params != 0 {
        out.append(" ");
        out.append(generics.text.as_str());
    }
    out
}

/// The signature of the trait `name`.
pub fn trait_signature(name: &str, generics: &GenericParams) -> (r: String)
    ensures
        r@ == trait_text(name@, generics@),
{
    let mut out = String::from_str("trait ");
    out.append(name);
    if generics.params != 0 {
        out.append(" ");
        out.append(generics.text.as_str());
    }
    out
}

/// The signature of a function with the given visibility and header.
pub fn fn_signature(visibility: &str, header: &str) -> (r: String)
    ensures
        r@ == fn_text(visibility@, header@),
{
    if visibility.is_empty() {
        String::from_str(header)
    } else {
        let mut out = String::from_str(visibility);
        out.append(" ");
        out.append(header);
        out
    }
}

/// The signature of an implementation block.
pub fn impl_signature(generics: &GenericParams, trait_path: &Option<String>, self_ty: &str) -> (r:
    String)
    ensures
        r@ == impl_text(generics@, trait_path.deep_view(), self_ty@),
{
    let mut parts: Vec<String> = Vec::new();
    parts.push(String::from_str("impl"));
    if generics.params != 0 {
        parts.push(generics.text.clone());
    }
    match trait_path {
        Some(path) => {
            parts.push(path.clone());
            parts.push(String::from_str("for"));
        },
        None => {},
    }
    parts.push(String::from_str(self_ty));
    assert(parts.deep_view() =~= impl_parts(generics@, trait_path.deep_view(), self_ty@));
    join(&parts, " ")
}

/// The display name of an implementation block.
pub fn impl_name(trait_path: &Option<String>, self_ty: &str) -> (r: String)
    ensures
        r@ == impl_name_text(trait_path.deep_view(), self_ty@),
{
    match trait_path {
        Some(path) => {
            let mut out = path.clone();
            out.append(" for ");
            out.append(self_ty);
            out
        },
        None => String::from_str(self_ty),
    }
}

} // verus!
