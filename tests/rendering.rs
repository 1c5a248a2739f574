use variant_access::decl::{Data, Fields, TypeDecl, Variant};
use variant_access::expand::{expand, expand_source};
use variant_access::generate::ExpandError;
use variant_access::naming::{method_name, name_from_snake, Access};
use variant_access::render::push_decimal;

fn variant(name: &str, fields: Fields) -> Variant {
    Variant { name: name.to_string(), fields, ignore: None }
}

fn types(tys: &[&str]) -> Vec<String> {
    tys.iter().map(|t| t.to_string()).collect()
}

fn decl(name: &str, impl_generics: &str, type_generics: &str, where_clause: &str, variants: Vec<Variant>) -> TypeDecl {
    TypeDecl {
        name: name.to_string(),
        impl_generics: impl_generics.to_string(),
        type_generics: type_generics.to_string(),
        where_clause: where_clause.to_string(),
        ignore: false,
        data: Data::Enum(variants),
    }
}

#[test]
fn method_names_are_snake_case() {
    assert_eq!(method_name("RGB", Access::Exclusive), "as_rgb_mut");
    assert_eq!(method_name("NeverMind", Access::Exclusive), "as_never_mind_mut");
    assert_eq!(method_name("NoRefIgnored", Access::Shared), "as_no_ref_ignored");
    assert_eq!(method_name("Just", Access::Shared), "as_just");
}

#[test]
fn maybe_source_text() {
    let maybe = decl(
        "Maybe",
        "<T>",
        "<T>",
        "",
        vec![variant("Nothing", Fields::Unit), variant("Just", Fields::Unnamed(types(&["T"])))],
    );
    let expected = [
        "#[automatically_derived] impl<T> Maybe<T>  { ",
        "#[doc = \"Returns `Some` if this value is the `Nothing` variant, `None` otherwise.\"] ",
        "pub fn as_nothing_mut(&mut self) -> Option<()> ",
        "{ match self { Maybe::Nothing => Some(()), _ => None } } ",
        "#[doc = \"Returns `Some` if this value is the `Just` variant, `None` otherwise.\"] ",
        "pub fn as_just_mut(&mut self) -> Option<&mut T> ",
        "{ match self { Maybe::Just(_0) => Some((_0)), _ => None } } ",
        "}",
    ]
    .concat();
    assert_eq!(expand_source(&maybe, Access::Exclusive).unwrap(), expected);
}

#[test]
fn kitchen_sink_keeps_generics_and_bounds() {
    let sink = decl(
        "KitchenSink",
        "<'a, 'b, T1: Copy, T2: Clone>",
        "<'a, 'b, T1, T2>",
        "where T2: Into<T1> + 'b",
        vec![
            variant("Left", Fields::Unnamed(types(&["&'a T1"]))),
            variant("Right", Fields::Unnamed(types(&["&'b T2"]))),
            variant("Empty", Fields::Unit),
            variant("NeverMind", Fields::Unnamed(vec![])),
        ],
    );
    let src = expand_source(&sink, Access::Exclusive).unwrap();
    assert!(src.starts_with(
        "#[automatically_derived] impl<'a, 'b, T1: Copy, T2: Clone> KitchenSink<'a, 'b, T1, T2> where T2: Into<T1> + 'b { "
    ));
    assert!(src.contains("pub fn as_left_mut(&mut self) -> Option<&mut &'a T1> "));
    assert!(src.contains(
        "pub fn as_never_mind_mut(&mut self) -> Option<()> { match self { KitchenSink::NeverMind() => Some(()), _ => None } }"
    ));
    let tokens = expand(&sink, Access::Exclusive).unwrap().to_string();
    assert!(tokens.contains("as_right_mut"));
    assert!(tokens.contains("as_empty_mut"));
}

#[test]
fn multi_field_shared_source_text() {
    let color = decl("Color", "", "", "", vec![variant("RGB", Fields::Unnamed(types(&["u8", "u16", "u32"])))]);
    let src = expand_source(&color, Access::Shared).unwrap();
    assert!(src.contains(
        "pub fn as_rgb(&self) -> Option<(& u8, & u16, & u32)> { match self { Color::RGB(_0, _1, _2) => Some((_0, _1, _2)), _ => None } }"
    ));
}

#[test]
fn twelve_fields_bind_two_digit_names() {
    let many = decl("Wide", "", "", "", vec![variant("Many", Fields::Unnamed(types(&["u8"; 12])))]);
    let src = expand_source(&many, Access::Exclusive).unwrap();
    assert!(src.contains("Wide::Many(_0, _1, _2, _3, _4, _5, _6, _7, _8, _9, _10, _11) => Some((_0, _1, _2, _3, _4, _5, _6, _7, _8, _9, _10, _11))"));
}

#[test]
fn decimal_spelling() {
    let mut s = String::from("_");
    push_decimal(&mut s, 0);
    push_decimal(&mut s, 7);
    push_decimal(&mut s, 1905);
    assert_eq!(s, "_071905");
}

#[test]
fn expand_produces_tokens() {
    let maybe = decl(
        "Maybe",
        "<T>",
        "<T>",
        "",
        vec![variant("Nothing", Fields::Unit), variant("Just", Fields::Unnamed(types(&["T"])))],
    );
    let tokens = expand(&maybe, Access::Exclusive).unwrap().to_string();
    assert!(tokens.contains("pub fn as_nothing_mut"));
    assert!(tokens.contains("pub fn as_just_mut"));
    assert!(tokens.contains("automatically_derived"));
}

#[test]
fn unlexable_type_text_is_invalid_tokens() {
    let bad = decl("Bad", "", "", "", vec![variant("Open", Fields::Unnamed(types(&["(u8"])))]);
    assert_eq!(expand(&bad, Access::Exclusive).err(), Some(ExpandError::InvalidTokens));
}

#[test]
fn expand_reports_generation_errors() {
    let named = decl("Point", "", "", "", vec![variant("At", Fields::Named(types(&["x", "y"])))]);
    assert_eq!(expand(&named, Access::Exclusive).err(), Some(ExpandError::NamedFields(0)));
    assert_eq!(expand_source(&named, Access::Exclusive).err(), Some(ExpandError::NamedFields(0)));
}

#[test]
fn error_messages() {
    assert_eq!(ExpandError::WrongShape.message("AsVariantMut"), "AsVariantMut can only be derived for enums");
    assert_eq!(
        ExpandError::NamedFields(2).message("AsVariantMut"),
        "AsVariantMut cannot be derived on enums with variants that have named fields"
    );
    assert_eq!(
        ExpandError::InvalidTokens.message("AsVariant"),
        "AsVariant generated text that is not valid tokens"
    );
}

#[test]
fn names_from_snake_spelling() {
    assert_eq!(name_from_snake("never_mind", Access::Exclusive), "as_never_mind_mut");
    assert_eq!(name_from_snake("rgb", Access::Shared), "as_rgb");
    assert_eq!(name_from_snake("", Access::Shared), "as_");
}
