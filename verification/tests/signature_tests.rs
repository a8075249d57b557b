use rust_indexer::signature::{
    fn_signature, impl_name, impl_signature, module_signature, trait_signature, type_signature,
};
use rust_indexer::syntax::GenericParams;

fn no_generics() -> GenericParams {
    GenericParams { params: 0, text: String::new() }
}

fn generics(params: usize, text: &str) -> GenericParams {
    GenericParams { params, text: String::from(text) }
}

#[test]
fn module_signature_tells_declaration_from_definition() {
    assert_eq!(module_signature("utils", false), "mod utils;");
    assert_eq!(module_signature("utils", true), "mod utils");
}

#[test]
fn type_signature_is_the_name_and_the_generics() {
    assert_eq!(type_signature("Greeter", &no_generics()), "Greeter");
    assert_eq!(type_signature("Pair", &generics(2, "< T : Clone , U >")), "Pair < T : Clone , U >");
}

#[test]
fn type_signature_goes_by_the_parameter_count() {
    // Angle brackets without a parameter are no generic parameter list.
    assert_eq!(type_signature("Unit", &generics(0, "< >")), "Unit");
    assert_eq!(trait_signature("Unit", &generics(0, "< >")), "trait Unit");
}

#[test]
fn trait_signature_starts_with_the_keyword() {
    assert_eq!(trait_signature("Greet", &no_generics()), "trait Greet");
    assert_eq!(trait_signature("Shape", &generics(1, "< T >")), "trait Shape < T >");
}

#[test]
fn fn_signature_puts_the_visibility_first() {
    assert_eq!(
        fn_signature("pub", "fn make_greeter () -> Greeter"),
        "pub fn make_greeter () -> Greeter"
    );
    assert_eq!(fn_signature("", "fn helper ()"), "fn helper ()");
    assert_eq!(fn_signature("pub (crate)", "unsafe fn f ()"), "pub (crate) unsafe fn f ()");
}

#[test]
fn impl_signature_joins_its_parts_with_spaces() {
    assert_eq!(impl_signature(&no_generics(), &None, "Greeter"), "impl Greeter");
    assert_eq!(
        impl_signature(&no_generics(), &Some(String::from("Greet")), "Greeter"),
        "impl Greet for Greeter"
    );
    assert_eq!(
        impl_signature(&generics(1, "< T >"), &Some(String::from("Greet")), "Wrapper < T >"),
        "impl < T > Greet for Wrapper < T >"
    );
    assert_eq!(
        impl_signature(&generics(1, "< T >"), &None, "Wrapper < T >"),
        "impl < T > Wrapper < T >"
    );
}

#[test]
fn impl_name_names_the_trait_first() {
    assert_eq!(impl_name(&None, "Greeter"), "Greeter");
    assert_eq!(impl_name(&Some(String::from("Greet")), "Greeter"), "Greet for Greeter");
    assert_eq!(
        impl_name(&Some(String::from("From < u8 >")), "Wrapper < T >"),
        "From < u8 > for Wrapper < T >"
    );
}
