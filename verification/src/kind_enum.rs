//! The tag-type synthesizer: building the kind enum's declaration.
//!
//! The synthesized declaration mirrors the source enum's variant names, in
//! order, with every payload stripped.  It carries the source's visibility,
//! a fixed baseline of derived capabilities, the caller's pass-through
//! specifiers verbatim, and — unless those specifiers already hold
//! documentation — a missing-docs exemption.  A per-variant discriminant
//! marker (`enum_kind_value`) is embedded verbatim, unvalidated; the host
//! toolchain is the backstop for its well-formedness.

use vstd::prelude::*;

use crate::ast::{AttrMeta, DataShape, InputDecl, MetaArg, VariantDecl};
use crate::ast::{clone_meta_args, enum_variants, is_enum};
use crate::config::{
    find_attribute, has_docs, list_args, named_list_at, no_named_list, spec_has_docs,
    value_attr_name,
};
use crate::Error;

verus! {

/// One variant of the generated kind enum: a name and, when the source
/// variant carried a discriminant marker, that marker's verbatim arguments.
/// A kind variant never has a payload.
#[derive(Debug, PartialEq, Eq)]
pub struct KindVariant {
    /// The variant's name, equal to the source variant's.
    pub name: String,
    /// The forced discriminant's verbatim tokens, when one was requested.
    pub discriminant: Option<Vec<MetaArg>>,
}

/// The generated kind enum's declaration.
#[derive(Debug, PartialEq, Eq)]
pub struct KindEnumDecl {
    /// The visibility, copied from the source declaration.
    pub vis: String,
    /// The configured name.
    pub name: String,
    /// The baseline capabilities derived for every kind enum.
    pub derives: Vec<String>,
    /// The caller's capability specifiers, re-attached verbatim.
    pub extra_attrs: Vec<MetaArg>,
    /// Whether a missing-docs exemption is attached (it is, unless the
    /// caller's specifiers already include documentation).
    pub suppress_missing_docs: bool,
    /// The payload-less variants, one per source variant, in source order.
    pub variants: Vec<KindVariant>,
}

/// The fixed capability baseline attached to every generated kind enum:
/// debug formatting, duplication by copy, and equality comparison.
pub open spec fn baseline_derives(s: Seq<String>) -> bool {
    &&& s.len() == 5
    &&& s[0]@ == "Debug"@
    &&& s[1]@ == "Clone"@
    &&& s[2]@ == "Copy"@
    &&& s[3]@ == "PartialEq"@
    &&& s[4]@ == "Eq"@
}

/// The kind variant `kv` is the correct mirror of the source variant `v`:
/// same name, and the first `enum_kind_value` marker's arguments (when the
/// source variant carries one) embedded verbatim as the discriminant.
pub open spec fn kind_variant_describes(v: VariantDecl, kv: KindVariant) -> bool {
    &&& kv.name == v.name
    &&& (no_named_list(v.attrs@, value_attr_name()) ==> kv.discriminant is None)
    &&& forall|j: int|
        #[trigger] named_list_at(v.attrs@, value_attr_name(), j) ==> {
            kv.discriminant matches Some(d) && d@ == list_args(v.attrs@[j])
        }
}

/// The declaration `k` is the kind enum that the source declaration `decl`,
/// the configured name and the pass-through specifiers prescribe.
pub open spec fn kind_enum_describes(
    decl: InputDecl,
    cfg_name: String,
    extra: Seq<MetaArg>,
    k: KindEnumDecl,
) -> bool {
    &&& k.name == cfg_name
    &&& k.vis == decl.vis
    &&& baseline_derives(k.derives@)
    &&& k.extra_attrs@ == extra
    &&& k.suppress_missing_docs == !spec_has_docs(extra)
    &&& k.variants@.len() == enum_variants(decl).len()
    &&& forall|i: int|
        0 <= i < enum_variants(decl).len() ==> kind_variant_describes(
            enum_variants(decl)[i],
            #[trigger] k.variants@[i],
        )
}

/// Synthesizes the kind enum's declaration.
///
/// Succeeds exactly when the annotated declaration is an enum — a source
/// with zero variants still yields a valid, empty kind enum — and then the
/// result mirrors the source's variant names in order with every payload
/// stripped, carries the source's visibility and the fixed capability
/// baseline, re-attaches the given specifiers verbatim, and exempts the type
/// from missing-docs checking unless the specifiers already document it.
pub fn create_kind_enum(decl: &InputDecl, kind_name: &String, traits: &Vec<MetaArg>) -> (r: Result<
    KindEnumDecl,
    Error,
>)
    ensures
        match r {
            Ok(k) => is_enum(*decl) && kind_enum_describes(*decl, *kind_name, traits@, k),
            Err(Error::NotAnEnum) => !is_enum(*decl),
            Err(_) => false,
        },
{
    let variants: &Vec<VariantDecl> = match &decl.data {
        DataShape::Enum(vs) => vs,
        _ => {
            return Err(Error::NotAnEnum);
        },
    };
    proof {
        reveal_strlit("enum_kind_value");
    }
    let value_name: String = String::from_str("enum_kind_value");
    let mut kvs: Vec<KindVariant> = Vec::new();
    let mut i: usize = 0;
    while i < variants.len()
        invariant
            i <= variants.len(),
            value_name@ == value_attr_name(),
            kvs@.len() == i,
            forall|m: int|
                0 <= m < i ==> kind_variant_describes(variants@[m], #[trigger] kvs@[m]),
        decreases variants.len() - i,
    {
        let v = &variants[i];
        let discriminant: Option<Vec<MetaArg>> = match find_attribute(&v.attrs, &value_name) {
            Some(j) => {
                match &v.attrs[j] {
                    AttrMeta::List(_, a) => Some(clone_meta_args(a)),
                    _ => {
                        proof {
                            assert(false);
                        }
                        None
                    },
                }
            },
            None => None,
        };
        kvs.push(KindVariant { name: v.name.clone(), discriminant });
        i = i + 1;
    }
    proof {
        reveal_strlit("Debug");
        reveal_strlit("Clone");
        reveal_strlit("Copy");
        reveal_strlit("PartialEq");
        reveal_strlit("Eq");
    }
    let mut derives: Vec<String> = Vec::new();
    derives.push(String::from_str("Debug"));
    derives.push(String::from_str("Clone"));
    derives.push(String::from_str("Copy"));
    derives.push(String::from_str("PartialEq"));
    derives.push(String::from_str("Eq"));
    let suppress_missing_docs = !has_docs(traits);
    Ok(
        KindEnumDecl {
            vis: decl.vis.clone(),
            name: kind_name.clone(),
            derives,
            extra_attrs: clone_meta_args(traits),
            suppress_missing_docs,
            variants: kvs,
        },
    )
}

} // verus!
