use enum_kinds::ast::{
    AttrMeta, DataShape, FieldsKind, GenericParam, Generics, InputDecl, MetaArg, VariantDecl,
};
use enum_kinds::enum_kind;
use enum_kinds::eval::{eval_conversion_ref, eval_conversion_value, PayloadValue, SourceValue};
use enum_kinds::Expansion;
use enum_kinds::ToKind;

fn kind_attr(name: &str) -> AttrMeta {
    AttrMeta::List("enum_kind".to_string(), vec![MetaArg::Path(name.to_string())])
}

fn variant(name: &str, fields: FieldsKind) -> VariantDecl {
    VariantDecl { name: name.to_string(), fields, attrs: Vec::new() }
}

fn lifetime(name: &str) -> GenericParam {
    GenericParam::Lifetime { name: name.to_string(), bounds: String::new() }
}

fn enum_decl(
    ident: &str,
    attrs: Vec<AttrMeta>,
    generics: Generics,
    variants: Vec<VariantDecl>,
) -> InputDecl {
    InputDecl {
        vis: String::new(),
        ident: ident.to_string(),
        attrs,
        generics,
        data: DataShape::Enum(variants),
    }
}

fn no_generics() -> Generics {
    Generics { params: Vec::new(), where_clause: String::new() }
}

fn expand(decl: &InputDecl) -> Expansion {
    enum_kind(decl).unwrap()
}

fn positional(variant_name: &str, items: Vec<String>) -> SourceValue {
    SourceValue { variant: variant_name.to_string(), payload: PayloadValue::Positional(items) }
}

#[test]
fn test_unnamed() {
    let decl = enum_decl(
        "UnnamedEnum",
        vec![kind_attr("UnnamedEnumKind")],
        no_generics(),
        vec![
            variant("First", FieldsKind::Unnamed),
            variant("Second", FieldsKind::Unnamed),
            variant("Third", FieldsKind::Unit),
        ],
    );
    let exp = expand(&decl);
    assert_eq!(exp.kind_enum.name, "UnnamedEnumKind");
    let first = positional("First", vec!["Example".to_owned(), 32u32.to_string()]);
    assert_eq!(eval_conversion_value(&exp.conversion, first), Some("First".to_string()));
}

#[test]
fn test_named() {
    let decl = enum_decl(
        "NamedEnum",
        vec![kind_attr("NamedEnumKind")],
        no_generics(),
        vec![variant("Foo", FieldsKind::Named), variant("Bar", FieldsKind::Named)],
    );
    let exp = expand(&decl);
    let foo = SourceValue {
        variant: "Foo".to_string(),
        payload: PayloadValue::Named(vec![
            enum_kinds::eval::NamedField { name: "foo".to_string(), value: "Example".to_string() },
            enum_kinds::eval::NamedField { name: "bar".to_string(), value: 32u32.to_string() },
        ]),
    };
    assert_eq!(eval_conversion_ref(&exp.conversion, &foo), Some("Foo".to_string()));
}

#[allow(dead_code)]
enum UnnamedEnum {
    First(String, u32),
    Second(char),
    Third,
}

#[derive(Debug, Clone, Copy, PartialEq, Eq)]
#[allow(dead_code)]
enum UnnamedEnumKind {
    First,
    Second,
    Third,
}

impl ToKind for UnnamedEnum {
    type Kind = UnnamedEnumKind;

    fn kind(&self) -> UnnamedEnumKind {
        match self {
            &UnnamedEnum::First(..) => UnnamedEnumKind::First,
            &UnnamedEnum::Second(..) => UnnamedEnumKind::Second,
            &UnnamedEnum::Third => UnnamedEnumKind::Third,
        }
    }
}

#[test]
fn kinds_test_unnamed() {
    let first = UnnamedEnum::First("Example".to_owned(), 32);
    assert_eq!(first.kind(), UnnamedEnumKind::First);
}

#[allow(dead_code)]
enum NamedEnum {
    Foo { foo: String, bar: u32 },
    Bar { zap: char },
}

#[derive(Debug, Clone, Copy, PartialEq, Eq)]
#[allow(dead_code)]
enum NamedEnumKind {
    Foo,
    Bar,
}

impl ToKind for NamedEnum {
    type Kind = NamedEnumKind;

    fn kind(&self) -> NamedEnumKind {
        match self {
            &NamedEnum::Foo { .. } => NamedEnumKind::Foo,
            &NamedEnum::Bar { .. } => NamedEnumKind::Bar,
        }
    }
}

#[test]
fn kinds_test_named() {
    let foo = NamedEnum::Foo { foo: "Example".to_owned(), bar: 32 };
    assert_eq!(foo.kind(), NamedEnumKind::Foo);
}

#[test]
fn test_with_lifetimes() {
    let decl = enum_decl(
        "WithLifetime",
        vec![kind_attr("WithLifetimeKind")],
        Generics { params: vec![lifetime("a")], where_clause: String::new() },
        vec![variant("First", FieldsKind::Unnamed)],
    );
    let exp = expand(&decl);
    assert_eq!(exp.conversion.borrow_lifetime, "__enum_kinds1");
    let first = positional("First", vec!["hello".to_string()]);
    assert_eq!(eval_conversion_ref(&exp.conversion, &first), Some("First".to_string()));
}

#[test]
fn test_with_where_clause() {
    let where_clause = "where T: Debug, T: 'b, T: ?Sized".to_string();
    let decl = enum_decl(
        "WithWhereClause",
        vec![kind_attr("WithWhereClauseKind")],
        Generics {
            params: vec![
                lifetime("b"),
                GenericParam::Type { name: "T".to_string(), bounds: String::new() },
            ],
            where_clause: where_clause.clone(),
        },
        vec![variant("First", FieldsKind::Named)],
    );
    let exp = expand(&decl);
    assert_eq!(exp.conversion.where_clause, where_clause);
    assert_eq!(exp.conversion.impl_params.len(), 3);
    assert_eq!(exp.conversion.impl_params[0], lifetime("__enum_kinds1"));
    let first = SourceValue {
        variant: "First".to_string(),
        payload: PayloadValue::Named(vec![enum_kinds::eval::NamedField {
            name: "value".to_string(),
            value: "hello".to_string(),
        }]),
    };
    assert_eq!(eval_conversion_ref(&exp.conversion, &first), Some("First".to_string()));
}

#[test]
fn test_with_collision() {
    let decl = enum_decl(
        "WithCollision",
        vec![kind_attr("WithCollisionKind")],
        Generics { params: vec![lifetime("__enum_kinds1")], where_clause: String::new() },
        vec![variant("First", FieldsKind::Unnamed)],
    );
    let exp = expand(&decl);
    assert_eq!(exp.conversion.borrow_lifetime, "__enum_kinds2");
    let first = positional("First", vec!["hello".to_string()]);
    assert_eq!(eval_conversion_ref(&exp.conversion, &first), Some("First".to_string()));
}

#[test]
fn test_with_extra_traits() {
    let attr = AttrMeta::List(
        "enum_kind".to_string(),
        vec![
            MetaArg::Path("WithExtraTraitsKind".to_string()),
            MetaArg::List("derive".to_string(), "Serialize, Deserialize".to_string()),
        ],
    );
    let decl = enum_decl(
        "WithExtraTraits",
        vec![attr],
        no_generics(),
        vec![variant("First", FieldsKind::Unnamed), variant("Second", FieldsKind::Unnamed)],
    );
    let exp = expand(&decl);
    assert_eq!(
        exp.kind_enum.extra_attrs,
        vec![MetaArg::List("derive".to_string(), "Serialize, Deserialize".to_string())]
    );
    let first = positional("First", vec![20u32.to_string(), 30u32.to_string()]);
    assert_eq!(eval_conversion_value(&exp.conversion, first), Some("First".to_string()));
}

#[test]
fn test_with_extra_traits_multiple() {
    let attr = AttrMeta::List(
        "enum_kind".to_string(),
        vec![
            MetaArg::Path("WithExtraTraitsMultipleKind".to_string()),
            MetaArg::List("derive".to_string(), "Serialize".to_string()),
            MetaArg::List("derive".to_string(), "Deserialize".to_string()),
        ],
    );
    let decl = enum_decl(
        "WithExtraTraitsMultiple",
        vec![attr],
        no_generics(),
        vec![variant("First", FieldsKind::Unnamed), variant("Second", FieldsKind::Unnamed)],
    );
    let exp = expand(&decl);
    assert_eq!(
        exp.kind_enum.extra_attrs,
        vec![
            MetaArg::List("derive".to_string(), "Serialize".to_string()),
            MetaArg::List("derive".to_string(), "Deserialize".to_string()),
        ]
    );
    let first = positional("First", vec![20u32.to_string(), 30u32.to_string()]);
    assert_eq!(eval_conversion_value(&exp.conversion, first), Some("First".to_string()));
}
