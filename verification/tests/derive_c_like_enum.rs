use c_like_try_from::decl::{
    AttrArg, AttrToken, Attribute, Data, DiscriminantExpr, EnumDeclaration, FieldShape, Lit,
    VariantDecl,
};
use c_like_try_from::generate::generate;
use c_like_try_from::generated::convert;

fn unit_variant(name: &str, value: u128, suffix: &str) -> VariantDecl {
    VariantDecl {
        name: name.to_string(),
        fields: FieldShape::Unit,
        discriminant: Some(DiscriminantExpr::Literal(Lit::Int {
            value,
            suffix: suffix.to_string(),
        })),
    }
}

fn repr_attr(ident: &str) -> Attribute {
    Attribute {
        outer: true,
        path: "repr".to_string(),
        arg: AttrArg::Group(vec![AttrToken::Ident(ident.to_string())]),
    }
}

fn foo_decl() -> EnumDeclaration {
    EnumDeclaration {
        name: "Foo".to_string(),
        attrs: vec![repr_attr("u16")],
        data: Data::Enum(vec![
            unit_variant("Bar1", 1, "u16"),
            unit_variant("Bar2", 2, "u16"),
        ]),
    }
}

#[test]
fn derive() {
    let gc = generate(&foo_decl()).unwrap().unwrap();
    let bar1 = "Bar1";
    let num = gc.arms[0].value;
    assert_eq!(1, num);
    let foo_again = convert(&gc, 1).unwrap();
    assert_eq!(bar1, foo_again);
    let foo_onece_over = convert(&gc, num).unwrap();
    assert_eq!(bar1, foo_onece_over);
}

#[test]
fn undefined_err() {
    let gc = generate(&foo_decl()).unwrap().unwrap();
    #[allow(unused_variables)]
    let foo = convert(&gc, 99).unwrap_err();
}
