//! The conversion synthesizer: building the mapping from the source enum to
//! its kind enum.
//!
//! The conversion has two entry points — one taking the source by reference,
//! one by value, the latter delegating to the former — and its body is one
//! exhaustive case split over the source's variants, discarding every
//! payload.  A source with zero variants gets an unreachable-code marker
//! instead of a case split, since no value can ever reach the body.  The
//! implementation is emitted under the source's own generic parameters and
//! where-clause, prefixed with a fresh synthetic lifetime for the borrowed
//! source value.

use vstd::prelude::*;

use crate::ast::{DataShape, FieldsKind, GenericParam, InputDecl, VariantDecl};
use crate::ast::{clone_generic_param, enum_variants, is_enum};
use crate::lifetime::{fresh_for, fresh_lifetime};
use crate::Error;

verus! {

/// One arm of the generated case split: a variant's name and the pattern
/// shape that discards its payload.
#[derive(Debug, PartialEq, Eq)]
pub struct MatchArm {
    /// The source variant matched (and the kind variant produced).
    pub variant: String,
    /// The payload-discarding pattern's shape: a bare path for a payload-less
    /// variant, `(..)` for a positional payload, `{..}` for named fields.
    pub pattern: FieldsKind,
}

/// The body of the generated conversion.
#[derive(Debug, PartialEq, Eq)]
pub enum ConversionBody {
    /// The source has no variants: no value exists to dispatch on, so the
    /// body is an unreachable-code marker rather than a case split.
    Unreachable,
    /// One arm per source variant, in source order.
    MatchOver(Vec<MatchArm>),
}

/// The generated conversion implementation.
///
/// It stands for both emitted entry points: the reference-taking one, whose
/// body this is, and the by-value one, which delegates to it.  The type
/// arguments that accompany the source type's name are the names of
/// `impl_params` past the leading synthetic lifetime.
#[derive(Debug, PartialEq, Eq)]
pub struct ConversionImpl {
    /// The synthetic lifetime of the borrowed source value (without the
    /// leading apostrophe).
    pub borrow_lifetime: String,
    /// The implementation's generic parameters: the synthetic lifetime
    /// followed by the source's own parameters, unchanged.
    pub impl_params: Vec<GenericParam>,
    /// The source's where-clause, reproduced verbatim.
    pub where_clause: String,
    /// The source type's name.
    pub source_name: String,
    /// The kind enum's name.
    pub kind_name: String,
    /// The case split (or the unreachable-code marker).
    pub body: ConversionBody,
}

/// The arms mirror the variants: one arm per variant, in order, matching the
/// variant's name with the pattern shape of its payload classification.
pub open spec fn arms_mirror(arms: Seq<MatchArm>, variants: Seq<VariantDecl>) -> bool {
    &&& arms.len() == variants.len()
    &&& forall|i: int|
        0 <= i < variants.len() ==> {
            &&& (#[trigger] arms[i]).variant@ == variants[i].name@
            &&& arms[i].pattern == variants[i].fields
        }
}

/// The conversion `c` is what the source declaration and the configured
/// kind-enum name prescribe.
pub open spec fn conversion_describes(decl: InputDecl, cfg_name: String, c: ConversionImpl) -> bool {
    &&& c.source_name == decl.ident
    &&& c.kind_name == cfg_name
    &&& c.where_clause == decl.generics.where_clause
    &&& fresh_for(decl.generics.params@, c.borrow_lifetime@)
    &&& c.impl_params@.len() == decl.generics.params@.len() + 1
    &&& c.impl_params@[0] matches GenericParam::Lifetime { name, bounds } && name
        == c.borrow_lifetime && bounds@ == Seq::<char>::empty()
    &&& forall|i: int|
        0 <= i < decl.generics.params@.len() ==> #[trigger] c.impl_params@[i + 1]
            == decl.generics.params@[i]
    &&& if enum_variants(decl).len() == 0 {
        c.body is Unreachable
    } else {
        c.body matches ConversionBody::MatchOver(arms) && arms_mirror(arms@, enum_variants(decl))
    }
}

/// Whether the annotated declaration is an enum with zero variants.
pub fn is_uninhabited_enum(decl: &InputDecl) -> (r: bool)
    ensures
        r == (is_enum(*decl) && enum_variants(*decl).len() == 0),
{
    match &decl.data {
        DataShape::Enum(vs) => vs.len() == 0,
        _ => false,
    }
}

/// Synthesizes the conversion from the source enum to its kind enum.
///
/// Succeeds exactly when the annotated declaration is an enum, and then the
/// result carries one payload-discarding arm per variant in source order —
/// or the unreachable-code marker when there are no variants — under the
/// source's generic parameters and where-clause, prefixed with the first
/// non-colliding synthetic lifetime.
pub fn create_impl(decl: &InputDecl, kind_name: &String) -> (r: Result<ConversionImpl, Error>)
    requires
        decl.generics.params@.len() < usize::MAX,
    ensures
        match r {
            Ok(c) => is_enum(*decl) && conversion_describes(*decl, *kind_name, c),
            Err(Error::NotAnEnum) => !is_enum(*decl),
            Err(_) => false,
        },
{
    let variants: &Vec<VariantDecl> = match &decl.data {
        DataShape::Enum(vs) => vs,
        _ => {
            return Err(Error::NotAnEnum);
        },
    };
    let borrow_lifetime = fresh_lifetime(&decl.generics.params);
    let mut impl_params: Vec<GenericParam> = Vec::new();
    impl_params.push(
        GenericParam::Lifetime { name: borrow_lifetime.clone(), bounds: String::new() },
    );
    let mut i: usize = 0;
    while i < decl.generics.params.len()
        invariant
            i <= decl.generics.params@.len(),
            impl_params@.len() == i + 1,
            impl_params@[0] matches GenericParam::Lifetime { name, bounds } && name
                == borrow_lifetime && bounds@ == Seq::<char>::empty(),
            forall|k: int|
                0 <= k < i ==> #[trigger] impl_params@[k + 1] == decl.generics.params@[k],
        decreases decl.generics.params@.len() - i,
    {
        impl_params.push(clone_generic_param(&decl.generics.params[i]));
        i = i + 1;
    }
    let body = if variants.len() == 0 {
        ConversionBody::Unreachable
    } else {
        let mut arms: Vec<MatchArm> = Vec::new();
        let mut j: usize = 0;
        while j < variants.len()
            invariant
                j <= variants.len(),
                arms@.len() == j,
                forall|k: int|
                    0 <= k < j ==> {
                        &&& (#[trigger] arms@[k]).variant@ == variants@[k].name@
                        &&& arms@[k].pattern == variants@[k].fields
                    },
            decreases variants.len() - j,
        {
            arms.push(MatchArm { variant: variants[j].name.clone(), pattern: variants[j].fields });
            j = j + 1;
        }
        ConversionBody::MatchOver(arms)
    };
    Ok(
        ConversionImpl {
            borrow_lifetime,
            impl_params,
            where_clause: decl.generics.where_clause.clone(),
            source_name: decl.ident.clone(),
            kind_name: kind_name.clone(),
            body,
        },
    )
}

} // verus!
