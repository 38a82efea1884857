//! Model of the token-level syntax tree that the expansion consumes.
//!
//! The host compiler hands the generator one annotated type declaration.  The
//! generator reads only a small part of it: the declaration's name,
//! visibility, attributes, generic parameters and — when it is an enum — the
//! name, payload classification and attributes of each variant.  These types
//! hold exactly that part as plain values; everything the generator passes
//! through untouched (bounds, where-clauses, attribute arguments) is carried
//! as verbatim token text.

use vstd::prelude::*;

verus! {

/// One argument of an attribute, in the shapes the generator distinguishes.
///
/// Arguments other than the mandatory leading name are preserved verbatim, so
/// a `List`'s inner tokens and a `NameValue`'s value are opaque token text.
#[derive(Debug, PartialEq, Eq)]
pub enum MetaArg {
    /// A bare path, e.g. `SomeEnumKind` or `Serialize`.
    Path(String),
    /// A parenthesized list, e.g. `derive(Serialize, Deserialize)`:
    /// the list's name and its inner tokens.
    List(String, String),
    /// A `name = value` pair, e.g. `doc = "text"`: the name and the value's
    /// token text.
    NameValue(String, String),
    /// A bare literal, e.g. `10` or `"text"`.
    Lit(String),
}

/// One attribute attached to a declaration or to a variant, reduced to the
/// meta shapes the generator inspects.
#[derive(Debug, PartialEq, Eq)]
pub enum AttrMeta {
    /// A bare attribute, e.g. `#[automatically_derived]`.
    Path(String),
    /// A list attribute, e.g. `#[enum_kind(SomeEnumKind, derive(Hash))]`:
    /// its name and its arguments.
    List(String, Vec<MetaArg>),
    /// A `#[name = value]` attribute, e.g. `#[doc = "text"]`.
    NameValue(String, String),
}

/// Payload classification of a variant: the only thing about a payload that
/// the expansion reads.
#[derive(Debug, Clone, Copy, PartialEq, Eq, Structural)]
pub enum FieldsKind {
    /// No payload at all, e.g. `Third`.
    Unit,
    /// Positional payload, e.g. `First(String, u32)`.
    Unnamed,
    /// Named-field payload, e.g. `Foo { foo: String, bar: u32 }`.
    Named,
}

/// One variant of the source enum.
#[derive(Debug, PartialEq, Eq)]
pub struct VariantDecl {
    /// The variant's name.
    pub name: String,
    /// How its payload is shaped.
    pub fields: FieldsKind,
    /// The attributes attached to the variant.
    pub attrs: Vec<AttrMeta>,
}

/// One generic parameter of the source declaration, carried through verbatim.
#[derive(Debug, PartialEq, Eq)]
pub enum GenericParam {
    /// A lifetime parameter `'name: bounds` (bounds may be empty).  The name
    /// is stored without the leading apostrophe.
    Lifetime { name: String, bounds: String },
    /// A type parameter `name: bounds` (bounds may be empty).
    Type { name: String, bounds: String },
    /// A const parameter `const name: ty`.
    Const { name: String, ty: String },
}

/// The source declaration's generics.
#[derive(Debug, PartialEq, Eq)]
pub struct Generics {
    /// The declared parameters, in order.
    pub params: Vec<GenericParam>,
    /// The where-clause's verbatim token text, `where` keyword included;
    /// empty when there is none.
    pub where_clause: String,
}

/// What kind of type declaration was annotated, with the variants when it is
/// an enum.  Only enums are accepted; the other shapes exist to be rejected.
#[derive(Debug, PartialEq, Eq)]
pub enum DataShape {
    /// A sum type with its variants in declaration order.
    Enum(Vec<VariantDecl>),
    /// A struct declaration.
    Struct,
    /// A union declaration.
    Union,
}

/// The annotated declaration, as the generator sees it.
#[derive(Debug, PartialEq, Eq)]
pub struct InputDecl {
    /// The declaration's visibility as verbatim token text; empty for
    /// private items.
    pub vis: String,
    /// The declared type's name.
    pub ident: String,
    /// The attributes attached to the declaration.
    pub attrs: Vec<AttrMeta>,
    /// The declaration's generic parameters and where-clause.
    pub generics: Generics,
    /// The declaration's shape, with the variants when it is an enum.
    pub data: DataShape,
}

/// Whether the annotated declaration is an enum.
pub open spec fn is_enum(d: InputDecl) -> bool {
    d.data is Enum
}

/// The source enum's variants (empty when the declaration is not an enum).
pub open spec fn enum_variants(d: InputDecl) -> Seq<VariantDecl> {
    match d.data {
        DataShape::Enum(vs) => vs@,
        _ => Seq::empty(),
    }
}

/// Duplicates one attribute argument.
pub fn clone_meta_arg(m: &MetaArg) -> (r: MetaArg)
    ensures
        r == *m,
{
    match m {
        MetaArg::Path(s) => MetaArg::Path(s.clone()),
        MetaArg::List(n, t) => MetaArg::List(n.clone(), t.clone()),
        MetaArg::NameValue(n, v) => MetaArg::NameValue(n.clone(), v.clone()),
        MetaArg::Lit(t) => MetaArg::Lit(t.clone()),
    }
}

/// Duplicates a list of attribute arguments.
pub fn clone_meta_args(args: &Vec<MetaArg>) -> (r: Vec<MetaArg>)
    ensures
        r@ == args@,
{
    let mut r: Vec<MetaArg> = Vec::new();
    let mut i: usize = 0;
    while i < args.len()
        invariant
            i <= args.len(),
            r@ == args@.subrange(0, i as int),
        decreases args.len() - i,
    {
        r.push(clone_meta_arg(&args[i]));
        i = i + 1;
        proof {
            assert(r@ =~= args@.subrange(0, i as int));
        }
    }
    proof {
        assert(r@ =~= args@);
    }
    r
}

/// Duplicates one generic parameter.
pub fn clone_generic_param(p: &GenericParam) -> (r: GenericParam)
    ensures
        r == *p,
{
    match p {
        GenericParam::Lifetime { name, bounds } => GenericParam::Lifetime {
            name: name.clone(),
            bounds: bounds.clone(),
        },
        GenericParam::Type { name, bounds } => GenericParam::Type {
            name: name.clone(),
            bounds: bounds.clone(),
        },
        GenericParam::Const { name, ty } => GenericParam::Const {
            name: name.clone(),
            ty: ty.clone(),
        },
    }
}

} // verus!
