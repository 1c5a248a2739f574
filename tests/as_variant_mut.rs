use variant_access::decl::{Data, Fields, TypeDecl, Variant};
use variant_access::generate::generate;
use variant_access::naming::Access;
use variant_access::value::Instance;

#[test]
pub fn test_as_variant_mut() {
    let maybe = TypeDecl {
        name: "Maybe".to_string(),
        impl_generics: "<T>".to_string(),
        type_generics: "<T>".to_string(),
        where_clause: String::new(),
        ignore: false,
        data: Data::Enum(vec![
            Variant { name: "Nothing".to_string(), fields: Fields::Unit, ignore: None },
            Variant { name: "Just".to_string(), fields: Fields::Unnamed(vec!["T".to_string()]), ignore: None },
        ]),
    };
    let accs = generate(&maybe, Access::Exclusive).unwrap();
    let as_nothing_mut = accs.iter().find(|a| a.name == "as_nothing_mut").unwrap();
    let as_just_mut = accs.iter().find(|a| a.name == "as_just_mut").unwrap();
    let mut nothing = Instance::<()>::new("Nothing", vec![]);
    assert_eq!(Some(()), as_nothing_mut.get_unit(&nothing));
    assert_eq!(None, as_just_mut.get_mut(&mut nothing));
}
