use giganto_proc_macro::classify::{
    classify, is_map_cast_needed, is_target_of_force_cast, CastStrategy,
};
use giganto_proc_macro::declared::{DeclaredType, GenericArg, PathTail, TypeSyntax};
use giganto_proc_macro::kinds::NumericKind;

fn read(text: &str) -> TypeSyntax {
    let ty: syn::Type = syn::parse_str(text).unwrap();
    TypeSyntax::read(&ty)
}

fn strategy_of(text: &str) -> CastStrategy {
    classify(read(text).declared_type())
}

#[test]
fn every_kind_of_the_set_is_found_under_its_name() {
    let kinds = [
        (NumericKind::U8, "u8"),
        (NumericKind::U16, "u16"),
        (NumericKind::U32, "u32"),
        (NumericKind::U64, "u64"),
        (NumericKind::I8, "i8"),
        (NumericKind::I16, "i16"),
        (NumericKind::I32, "i32"),
        (NumericKind::Usize, "usize"),
    ];
    for (kind, name) in kinds {
        assert_eq!(kind.name(), name);
        assert_eq!(NumericKind::from_name(name), Some(kind));
    }
}

#[test]
fn names_outside_the_set_are_no_kind() {
    for name in ["i64", "u128", "i128", "isize", "f64", "bool", "String", "U8", "u8 ", "", "u"] {
        assert_eq!(NumericKind::from_name(name), None, "{name:?}");
    }
}

#[test]
fn narrow_integer_is_a_force_cast_target() {
    let ty = read("u16");
    assert!(is_target_of_force_cast(&ty));
    assert!(!is_map_cast_needed(&ty));
    assert_eq!(ty.declared_type(), DeclaredType::Numeric(NumericKind::U16));
}

#[test]
fn vec_of_narrow_integers_needs_a_map_cast() {
    let ty = read("Vec<u8>");
    assert!(is_map_cast_needed(&ty));
    assert!(!is_target_of_force_cast(&ty));
    assert_eq!(ty.declared_type(), DeclaredType::Sequence(Some(NumericKind::U8)));
}

#[test]
fn a_type_is_read_as_its_tokens_and_its_last_segment() {
    assert_eq!(
        read("Vec<u8>"),
        TypeSyntax {
            tokens: "Vec < u8 >".to_string(),
            path: Some(PathTail {
                ident: "Vec".to_string(),
                arguments: Some(vec![GenericArg::Type("u8".to_string())]),
            }),
        }
    );
    assert_eq!(
        read("u16"),
        TypeSyntax {
            tokens: "u16".to_string(),
            path: Some(PathTail { ident: "u16".to_string(), arguments: None }),
        }
    );
    assert_eq!(
        read("std::collections::HashMap<'a, String, Vec<u8>>"),
        TypeSyntax {
            tokens: "std :: collections :: HashMap < 'a , String , Vec < u8 > >".to_string(),
            path: Some(PathTail {
                ident: "HashMap".to_string(),
                arguments: Some(vec![
                    GenericArg::Other,
                    GenericArg::Type("String".to_string()),
                    GenericArg::Type("Vec < u8 >".to_string()),
                ]),
            }),
        }
    );
    assert_eq!(read("&u8"), TypeSyntax { tokens: "& u8".to_string(), path: None });
    assert_eq!(read("[u8; 4]"), TypeSyntax { tokens: "[u8 ; 4]".to_string(), path: None });
    assert_eq!(read("(u8, u16)"), TypeSyntax { tokens: "(u8 , u16)".to_string(), path: None });
}

#[test]
fn the_arguments_are_read_only_from_angle_brackets() {
    assert_eq!(
        read("Vec<>").path,
        Some(PathTail { ident: "Vec".to_string(), arguments: Some(Vec::new()) })
    );
    assert_eq!(
        read("Vec::<u8>::Item").path,
        Some(PathTail { ident: "Item".to_string(), arguments: None })
    );
    assert_eq!(
        read("Iterator<Item = u16>").path,
        Some(PathTail {
            ident: "Iterator".to_string(),
            arguments: Some(vec![GenericArg::Other]),
        })
    );
    assert_eq!(
        read("Vec<'a, 3, u8>").path,
        Some(PathTail {
            ident: "Vec".to_string(),
            arguments: Some(vec![
                GenericArg::Other,
                GenericArg::Other,
                GenericArg::Type("u8".to_string()),
            ]),
        })
    );
}

#[test]
fn a_type_is_read_the_same_each_time() {
    let ty: syn::Type = syn::parse_str("std::vec::Vec<'a, usize>").unwrap();
    assert_eq!(TypeSyntax::read(&ty), TypeSyntax::read(&ty));
    assert_eq!(TypeSyntax::read(&ty), TypeSyntax::read(&ty.clone()));
}

#[test]
fn each_kind_of_the_set_is_cast() {
    for name in ["u8", "u16", "u32", "u64", "i8", "i16", "i32", "usize"] {
        assert_eq!(strategy_of(name), CastStrategy::ScalarForceCast, "{name}");
    }
}

#[test]
fn a_vec_of_each_kind_of_the_set_is_cast_element_by_element() {
    for name in ["u8", "u16", "u32", "u64", "i8", "i16", "i32", "usize"] {
        let text = format!("Vec<{name}>");
        assert_eq!(strategy_of(&text), CastStrategy::ElementwiseForceCast, "{text}");
    }
}

#[test]
fn every_other_type_is_assigned() {
    for text in [
        "i64",
        "u128",
        "isize",
        "f64",
        "bool",
        "String",
        "DateTime",
        "Option<u8>",
        "Vec<String>",
        "Vec<i64>",
        "Vec<Vec<u8>>",
        "Vec<Option<u8>>",
        "Vec",
        "&u8",
        "[u8; 4]",
        "(u8, u16)",
        "(u8)",
        "*const u8",
        "dyn Into<u8>",
        "std::primitive::u8",
        "fn() -> Vec<u8>",
        "HashMap<u8, u16>",
    ] {
        assert_eq!(strategy_of(text), CastStrategy::Direct, "{text}");
    }
}

#[test]
fn a_vec_is_known_by_its_last_segment() {
    assert_eq!(strategy_of("std::vec::Vec<u16>"), CastStrategy::ElementwiseForceCast);
    assert_eq!(strategy_of("::std::vec::Vec<i32>"), CastStrategy::ElementwiseForceCast);
    assert_eq!(strategy_of("<T as Container>::Vec<u8>"), CastStrategy::ElementwiseForceCast);
    assert_eq!(strategy_of("Vec::<u8>::Item"), CastStrategy::Direct);
}

#[test]
fn the_first_type_argument_decides() {
    assert_eq!(strategy_of("Vec<'a, u8>"), CastStrategy::ElementwiseForceCast);
    assert_eq!(strategy_of("Vec<u8, Global>"), CastStrategy::ElementwiseForceCast);
    assert_eq!(strategy_of("Vec<Global, u8>"), CastStrategy::Direct);
    assert_eq!(strategy_of("Vec<3, u8>"), CastStrategy::ElementwiseForceCast);
    assert_eq!(strategy_of("Vec<>"), CastStrategy::Direct);
}

#[test]
fn only_a_segment_named_vec_has_an_element() {
    let tail = |ident: &str, arguments: Option<Vec<GenericArg>>| PathTail {
        ident: ident.to_string(),
        arguments,
    };
    let u8_type = || GenericArg::Type("u8".to_string());
    assert_eq!(tail("Vec", Some(vec![u8_type()])).vec_element(), Some("u8"));
    assert_eq!(tail("Vec", Some(vec![GenericArg::Other, u8_type()])).vec_element(), Some("u8"));
    assert_eq!(tail("Vec", Some(vec![GenericArg::Other])).vec_element(), None);
    assert_eq!(tail("Vec", Some(Vec::new())).vec_element(), None);
    assert_eq!(tail("Vec", None).vec_element(), None);
    assert_eq!(tail("vec", Some(vec![u8_type()])).vec_element(), None);
    assert_eq!(tail("VecDeque", Some(vec![u8_type()])).vec_element(), None);
}

#[test]
fn a_sequence_comes_before_a_scalar() {
    let ty = TypeSyntax {
        tokens: "u8".to_string(),
        path: Some(PathTail {
            ident: "Vec".to_string(),
            arguments: Some(vec![GenericArg::Other, GenericArg::Type("i16".to_string())]),
        }),
    };
    assert!(is_map_cast_needed(&ty));
    assert!(is_target_of_force_cast(&ty));
    assert_eq!(ty.declared_type(), DeclaredType::Sequence(Some(NumericKind::I16)));
    assert_eq!(classify(ty.declared_type()), CastStrategy::ElementwiseForceCast);
}

#[test]
fn a_scalar_comes_before_a_sequence_of_another_type() {
    let ty = TypeSyntax {
        tokens: "u8".to_string(),
        path: Some(PathTail {
            ident: "Vec".to_string(),
            arguments: Some(vec![GenericArg::Type("String".to_string())]),
        }),
    };
    assert!(!is_map_cast_needed(&ty));
    assert_eq!(ty.vec_element(), Some("String"));
    assert_eq!(ty.declared_type(), DeclaredType::Numeric(NumericKind::U8));
}

#[test]
fn the_strategy_follows_the_kind_of_type() {
    assert_eq!(classify(DeclaredType::Numeric(NumericKind::I8)), CastStrategy::ScalarForceCast);
    assert_eq!(
        classify(DeclaredType::Sequence(Some(NumericKind::Usize))),
        CastStrategy::ElementwiseForceCast
    );
    assert_eq!(classify(DeclaredType::Sequence(None)), CastStrategy::Direct);
    assert_eq!(classify(DeclaredType::Other), CastStrategy::Direct);
}
