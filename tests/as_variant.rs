use variant_access::decl::{Data, Fields, TypeDecl, Variant};
use variant_access::generate::generate;
use variant_access::naming::Access;
use variant_access::value::Instance;

#[test]
pub fn test_as_variant() {
    let maybe = TypeDecl {
        name: "Maybe".to_string(),
        impl_generics: "<T>".to_string(),
        type_generics: "<T>".to_string(),
        where_clause: String::new(),
        ignore: false,
        data: Data::Enum(vec![
            Variant { name: "Nothing".to_string(), fields: Fields::Unit, ignore: None },
            Variant { name: "Just".to_string(), fields: Fields::Unnamed(vec!["T".to_string()]), ignore: None },
        ]),
    };
    let accs = generate(&maybe, Access::Shared).unwrap();
    let as_nothing = accs.iter().find(|a| a.name == "as_nothing").unwrap();
    let as_just = accs.iter().find(|a| a.name == "as_just").unwrap();
    let nothing = Instance::<()>::new("Nothing", vec![]);
    assert_eq!(Some(()), as_nothing.get_unit(&nothing));
    assert_eq!(None, as_just.get_ref(&nothing));
}
