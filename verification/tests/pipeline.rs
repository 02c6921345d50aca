use c_like_try_from::decl::{
    AttrArg, AttrToken, Attribute, Data, DiscriminantExpr, EnumDeclaration, FieldShape, Lit,
    LitKind, VariantDecl,
};
use c_like_try_from::error::{DiscriminantIssue, GenError, StructuralIssue};
use c_like_try_from::generate::generate;
use c_like_try_from::generated::convert;
use c_like_try_from::TryFromIntError;

fn unit_variant(name: &str, value: u128, suffix: &str) -> VariantDecl {
    VariantDecl {
        name: name.to_string(),
        fields: FieldShape::Unit,
        discriminant: Some(DiscriminantExpr::Literal(Lit::Int {
            value,
            suffix: suffix.to_string(),
        })),
    }
}

fn repr_attr(ident: &str) -> Attribute {
    Attribute {
        outer: true,
        path: "repr".to_string(),
        arg: AttrArg::Group(vec![AttrToken::Ident(ident.to_string())]),
    }
}

fn decl(name: &str, attrs: Vec<Attribute>, variants: Vec<VariantDecl>) -> EnumDeclaration {
    EnumDeclaration {
        name: name.to_string(),
        attrs,
        data: Data::Enum(variants),
    }
}

#[test]
fn end_to_end_foo() {
    let d = decl(
        "Foo",
        vec![repr_attr("u16")],
        vec![unit_variant("Bar1", 1, "u16"), unit_variant("Bar2", 2, "u16")],
    );
    let gc = generate(&d).unwrap().unwrap();
    assert_eq!(gc.enum_name, "Foo");
    assert_eq!(gc.source_type, "u16");
    assert_eq!(gc.arms.len(), 2);
    assert_eq!(convert(&gc, 1).unwrap(), "Bar1");
    assert_eq!(convert(&gc, 2).unwrap(), "Bar2");
    let err = convert(&gc, 99).unwrap_err();
    assert_eq!(err.0, 99);
    assert_eq!(err.message(), "Could not convert 99");
}

#[test]
fn round_trip_all_variants() {
    let d = decl(
        "Color",
        vec![repr_attr("u8")],
        vec![
            unit_variant("Red", 10, "u8"),
            unit_variant("Green", 20, "u8"),
            unit_variant("Blue", 30, "u8"),
        ],
    );
    let gc = generate(&d).unwrap().unwrap();
    for arm in &gc.arms {
        assert_eq!(convert(&gc, arm.value).unwrap(), arm.variant);
    }
    for probe in [0u128, 11, 19, 255] {
        assert_eq!(convert(&gc, probe).unwrap_err().0, probe);
    }
}

#[test]
fn zero_variant_enum_emits_nothing() {
    let d = decl("Nothing", vec![repr_attr("u8")], vec![]);
    assert!(generate(&d).unwrap().is_none());
}

#[test]
fn zero_variant_enum_without_repr_emits_nothing() {
    let d = decl("Nothing", vec![], vec![]);
    assert!(generate(&d).unwrap().is_none());
}

#[test]
fn variant_with_fields_is_structural_violation() {
    let mut v = unit_variant("Bar1", 1, "u16");
    v.fields = FieldShape::Unnamed { count: 1 };
    let d = decl("Foo", vec![repr_attr("u16")], vec![v]);
    match generate(&d).unwrap_err() {
        GenError::StructuralViolation(StructuralIssue::VariantHasFields { enum_name, variant }) => {
            assert_eq!(enum_name, "Foo");
            assert_eq!(variant, "Bar1");
        }
        e => panic!("unexpected error {:?}", e),
    }
}

#[test]
fn variant_with_named_fields_is_structural_violation() {
    let mut v = unit_variant("Bar1", 1, "u16");
    v.fields = FieldShape::Named { count: 2 };
    let d = decl("Foo", vec![repr_attr("u16")], vec![v]);
    match generate(&d).unwrap_err() {
        GenError::StructuralViolation(StructuralIssue::VariantHasFields { enum_name, variant }) => {
            assert_eq!(enum_name, "Foo");
            assert_eq!(variant, "Bar1");
        }
        e => panic!("unexpected error {:?}", e),
    }
}

#[test]
fn empty_field_list_is_not_a_field() {
    // A zero-length parenthesized field list carries no field; such a
    // variant falls through to the discriminant rules instead.
    let v = VariantDecl {
        name: "Bar".to_string(),
        fields: FieldShape::Unnamed { count: 0 },
        discriminant: None,
    };
    let d = decl("Foo", vec![repr_attr("u16")], vec![v]);
    match generate(&d).unwrap_err() {
        GenError::MissingDiscriminant { variant, issue } => {
            assert_eq!(variant, "Bar");
            assert_eq!(issue, DiscriminantIssue::Absent);
        }
        e => panic!("unexpected error {:?}", e),
    }
}

#[test]
fn float_discriminant_is_unsupported_kind() {
    let v = VariantDecl {
        name: "Almost".to_string(),
        fields: FieldShape::Unit,
        discriminant: Some(DiscriminantExpr::Literal(Lit::Float)),
    };
    let d = decl("Foo", vec![repr_attr("u16")], vec![v]);
    match generate(&d).unwrap_err() {
        GenError::UnsupportedDiscriminantKind { variant, kind } => {
            assert_eq!(variant, "Almost");
            assert_eq!(kind, LitKind::Float);
        }
        e => panic!("unexpected error {:?}", e),
    }
}

#[test]
fn non_enum_is_structural_violation() {
    let d = EnumDeclaration {
        name: "NotAnEnum".to_string(),
        attrs: vec![repr_attr("u8")],
        data: Data::Other,
    };
    match generate(&d).unwrap_err() {
        GenError::StructuralViolation(StructuralIssue::NotAnEnum { name }) => {
            assert_eq!(name, "NotAnEnum");
        }
        e => panic!("unexpected error {:?}", e),
    }
}

#[test]
fn missing_repr_on_enum_with_variants() {
    let d = decl("Foo", vec![], vec![unit_variant("Bar1", 1, "u16")]);
    match generate(&d).unwrap_err() {
        GenError::MissingRepresentation { enum_name } => assert_eq!(enum_name, "Foo"),
        e => panic!("unexpected error {:?}", e),
    }
}

#[test]
fn missing_discriminant() {
    let v = VariantDecl {
        name: "Bar".to_string(),
        fields: FieldShape::Unit,
        discriminant: None,
    };
    let d = decl("Foo", vec![repr_attr("u16")], vec![v]);
    match generate(&d).unwrap_err() {
        GenError::MissingDiscriminant { variant, issue } => {
            assert_eq!(variant, "Bar");
            assert_eq!(issue, DiscriminantIssue::Absent);
        }
        e => panic!("unexpected error {:?}", e),
    }
}

#[test]
fn non_literal_discriminant() {
    let v = VariantDecl {
        name: "Bar".to_string(),
        fields: FieldShape::Unit,
        discriminant: Some(DiscriminantExpr::Other),
    };
    let d = decl("Foo", vec![repr_attr("u16")], vec![v]);
    match generate(&d).unwrap_err() {
        GenError::MissingDiscriminant { variant, issue } => {
            assert_eq!(variant, "Bar");
            assert_eq!(issue, DiscriminantIssue::NonLiteral);
        }
        e => panic!("unexpected error {:?}", e),
    }
}

#[test]
fn boolean_discriminant_is_unsupported_kind() {
    // A non-integer literal is rejected by the variant validator before the
    // consistency sets are ever compared.
    let b = VariantDecl {
        name: "No".to_string(),
        fields: FieldShape::Unit,
        discriminant: Some(DiscriminantExpr::Literal(Lit::Bool)),
    };
    let d = decl(
        "Foo",
        vec![repr_attr("u16")],
        vec![unit_variant("Yes", 1, "u16"), b],
    );
    match generate(&d).unwrap_err() {
        GenError::UnsupportedDiscriminantKind { variant, kind } => {
            assert_eq!(variant, "No");
            assert_eq!(kind, LitKind::Bool);
        }
        e => panic!("unexpected error {:?}", e),
    }
}

#[test]
fn mixed_suffixes_are_inconsistent() {
    let d = decl(
        "Foo",
        vec![repr_attr("u8")],
        vec![unit_variant("Bar1", 1, "u8"), unit_variant("Bar2", 2, "u16")],
    );
    match generate(&d).unwrap_err() {
        GenError::InconsistentDiscriminants { enum_name, kinds, suffixes } => {
            assert_eq!(enum_name, "Foo");
            assert_eq!(kinds, vec![LitKind::Int]);
            assert_eq!(suffixes, vec!["u8".to_string(), "u16".to_string()]);
        }
        e => panic!("unexpected error {:?}", e),
    }
}

#[test]
fn repr_mismatch() {
    let d = decl(
        "Foo",
        vec![repr_attr("u16")],
        vec![unit_variant("Bar1", 1, "u32"), unit_variant("Bar2", 2, "u32")],
    );
    match generate(&d).unwrap_err() {
        GenError::RepresentationMismatch { suffix, repr } => {
            assert_eq!(suffix, "u32");
            assert_eq!(repr, "u16");
        }
        e => panic!("unexpected error {:?}", e),
    }
}

#[test]
fn unsuffixed_literals_mismatch_declared_repr() {
    // An unsuffixed literal lower-cases to the empty string, which can never
    // equal a declared storage type name.
    let d = decl("Foo", vec![repr_attr("u16")], vec![unit_variant("Bar1", 1, "")]);
    match generate(&d).unwrap_err() {
        GenError::RepresentationMismatch { suffix, repr } => {
            assert_eq!(suffix, "");
            assert_eq!(repr, "u16");
        }
        e => panic!("unexpected error {:?}", e),
    }
}

#[test]
fn suffix_is_lowercased_for_the_repr_check() {
    let d = decl(
        "Foo",
        vec![repr_attr("u16")],
        vec![unit_variant("Bar1", 1, "U16")],
    );
    let gc = generate(&d).unwrap().unwrap();
    assert_eq!(gc.source_type, "u16");
    assert_eq!(gc.arms[0].suffix, "U16");
}

#[test]
fn first_repr_attribute_wins() {
    let inner = Attribute {
        outer: false,
        path: "repr".to_string(),
        arg: AttrArg::Group(vec![AttrToken::Ident("u32".to_string())]),
    };
    let other = Attribute {
        outer: true,
        path: "derive".to_string(),
        arg: AttrArg::Group(vec![AttrToken::Ident("Debug".to_string())]),
    };
    let d = decl(
        "Foo",
        vec![inner, other, repr_attr("u8"), repr_attr("u64")],
        vec![unit_variant("Bar1", 1, "u8")],
    );
    let gc = generate(&d).unwrap().unwrap();
    assert_eq!(gc.source_type, "u8");
}

#[test]
fn malformed_repr_argument() {
    let bad_group = Attribute {
        outer: true,
        path: "repr".to_string(),
        arg: AttrArg::Group(vec![AttrToken::Other]),
    };
    let empty_group = Attribute {
        outer: true,
        path: "repr".to_string(),
        arg: AttrArg::Group(vec![]),
    };
    let no_group = Attribute {
        outer: true,
        path: "repr".to_string(),
        arg: AttrArg::Other,
    };
    for attr in [bad_group, empty_group, no_group] {
        let d = decl("Foo", vec![attr], vec![unit_variant("Bar1", 1, "u16")]);
        match generate(&d).unwrap_err() {
            GenError::StructuralViolation(StructuralIssue::MalformedAttribute { enum_name }) => {
                assert_eq!(enum_name, "Foo");
            }
            e => panic!("unexpected error {:?}", e),
        }
    }
}

#[test]
fn literal_kinds() {
    assert_eq!(Lit::Str.kind(), LitKind::Str);
    assert_eq!(Lit::ByteStr.kind(), LitKind::ByteStr);
    assert_eq!(Lit::Byte.kind(), LitKind::Byte);
    assert_eq!(Lit::Char.kind(), LitKind::Char);
    assert_eq!(
        Lit::Int { value: 0, suffix: String::new() }.kind(),
        LitKind::Int
    );
    assert_eq!(Lit::Float.kind(), LitKind::Float);
    assert_eq!(Lit::Bool.kind(), LitKind::Bool);
    assert_eq!(Lit::Verbatim.kind(), LitKind::Verbatim);
}

#[test]
fn error_message_rendering() {
    assert_eq!(TryFromIntError(0u128).message(), "Could not convert 0");
    assert_eq!(TryFromIntError(7u128).message(), "Could not convert 7");
    assert_eq!(TryFromIntError(1000u128).message(), "Could not convert 1000");
    assert_eq!(
        TryFromIntError(u128::MAX).message(),
        "Could not convert 340282366920938463463374607431768211455"
    );
}

#[test]
fn duplicate_discriminants_take_the_first_arm() {
    let d = decl(
        "Foo",
        vec![repr_attr("u8")],
        vec![unit_variant("Bar1", 1, "u8"), unit_variant("Bar2", 1, "u8")],
    );
    let gc = generate(&d).unwrap().unwrap();
    assert_eq!(convert(&gc, 1).unwrap(), "Bar1");
}
