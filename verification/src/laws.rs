//! Laws of the expansion: what holds of every generated kind enum and
//! conversion, proved once and for all.

use vstd::prelude::*;

use crate::ast::{InputDecl, MetaArg, VariantDecl};
use crate::ast::enum_variants;
use crate::conv::{arms_mirror, conversion_describes, ConversionImpl, MatchArm};
use crate::eval::{arm_admits, payload_shape, spec_eval, spec_eval_arms, SourceValue};
use crate::kind_enum::{kind_enum_describes, kind_variant_describes, KindEnumDecl};
use crate::lifetime::lifetime_used;

verus! {

/// The value `v` is a value of the source enum described by `variants`:
/// some variant has its name, and its payload has that variant's shape.
pub open spec fn value_conforms(variants: Seq<VariantDecl>, v: SourceValue) -> bool {
    exists|i: int|
        {
            &&& 0 <= i < variants.len()
            &&& (#[trigger] variants[i]).name@ == v.variant@
            &&& variants[i].fields == payload_shape(v.payload)
        }
}

/// Variant-set fidelity: a generated kind enum has exactly the source's
/// variant names, in the source's order, with no additions and no
/// omissions (and, by construction, no variant of it carries a payload).
pub proof fn lemma_variant_set_fidelity(
    decl: InputDecl,
    cfg_name: String,
    extra: Seq<MetaArg>,
    k: KindEnumDecl,
)
    requires
        kind_enum_describes(decl, cfg_name, extra, k),
    ensures
        k.variants@.len() == enum_variants(decl).len(),
        forall|i: int|
            0 <= i < enum_variants(decl).len() ==> (#[trigger] k.variants@[i]).name@
                == enum_variants(decl)[i].name@,
{
    assert forall|i: int| 0 <= i < enum_variants(decl).len() implies (
    #[trigger] k.variants@[i]).name@ == enum_variants(decl)[i].name@ by {
        assert(kind_variant_describes(enum_variants(decl)[i], k.variants@[i]));
    }
}

/// Exhaustive mapping over mirrored arms: a value of any variant evaluates
/// to the kind variant of the same name.
pub proof fn lemma_exhaustive_mapping(
    arms: Seq<MatchArm>,
    variants: Seq<VariantDecl>,
    v: SourceValue,
)
    requires
        arms_mirror(arms, variants),
        value_conforms(variants, v),
    ensures
        spec_eval_arms(arms, v) == Some(v.variant@),
    decreases arms.len(),
{
    let i = choose|i: int|
        {
            &&& 0 <= i < variants.len()
            &&& (#[trigger] variants[i]).name@ == v.variant@
            &&& variants[i].fields == payload_shape(v.payload)
        };
    if arm_admits(arms[0], v) {
        assert(spec_eval_arms(arms, v) == Some(arms[0].variant@));
    } else {
        assert(i != 0);
        assert(arms_mirror(arms.drop_first(), variants.drop_first())) by {
            assert forall|m: int| 0 <= m < variants.drop_first().len() implies {
                &&& (#[trigger] arms.drop_first()[m]).variant@ == variants.drop_first()[m].name@
                &&& arms.drop_first()[m].pattern == variants.drop_first()[m].fields
            } by {
                assert(arms.drop_first()[m] == arms[m + 1]);
                assert(variants.drop_first()[m] == variants[m + 1]);
            }
        }
        assert(value_conforms(variants.drop_first(), v)) by {
            assert(variants.drop_first()[i - 1] == variants[i]);
        }
        lemma_exhaustive_mapping(arms.drop_first(), variants.drop_first(), v);
    }
}

/// Exhaustive mapping for a generated conversion: converting a value of any
/// source variant — by reference, and so also by value through the
/// delegating entry point — yields the kind variant of the matching name.
pub proof fn lemma_conversion_total(
    decl: InputDecl,
    cfg_name: String,
    c: ConversionImpl,
    v: SourceValue,
)
    requires
        conversion_describes(decl, cfg_name, c),
        value_conforms(enum_variants(decl), v),
    ensures
        spec_eval(c.body, v) == Some(v.variant@),
{
    assert(enum_variants(decl).len() > 0);
    let arms = c.body->MatchOver_0;
    lemma_exhaustive_mapping(arms@, enum_variants(decl), v);
}

/// Payload erasure: two values of the same variant whose payloads have the
/// same shape — in particular, any two values built from one named-field
/// variant — evaluate to the same kind variant, whatever their payload
/// contents.
pub proof fn lemma_payload_erasure(arms: Seq<MatchArm>, v1: SourceValue, v2: SourceValue)
    requires
        v1.variant@ == v2.variant@,
        payload_shape(v1.payload) == payload_shape(v2.payload),
    ensures
        spec_eval_arms(arms, v1) == spec_eval_arms(arms, v2),
    decreases arms.len(),
{
    if arms.len() == 0 {
    } else if arm_admits(arms[0], v1) {
        assert(arm_admits(arms[0], v2));
    } else {
        assert(!arm_admits(arms[0], v2));
        lemma_payload_erasure(arms.drop_first(), v1, v2);
    }
}

/// Generics and lifetime transparency: a generated conversion stands under
/// the source's own generic parameters and where-clause, reproduced
/// unchanged after the one synthetic lifetime, and that lifetime collides
/// with no lifetime the source declares — however the source was
/// parameterized, including with lifetimes that follow the synthetic
/// naming convention.
pub proof fn lemma_generics_transparency(decl: InputDecl, cfg_name: String, c: ConversionImpl)
    requires
        conversion_describes(decl, cfg_name, c),
    ensures
        !lifetime_used(decl.generics.params@, c.borrow_lifetime@),
        c.impl_params@.len() == decl.generics.params@.len() + 1,
        forall|i: int|
            0 <= i < decl.generics.params@.len() ==> #[trigger] c.impl_params@[i + 1]
                == decl.generics.params@[i],
        c.where_clause == decl.generics.where_clause,
{
}

/// An uninhabited source admits no value: with zero variants nothing
/// conforms, so the conversion's unreachable-code marker can never be
/// reached by a value of the source type.
pub proof fn lemma_uninhabited_no_value(d: InputDecl, v: SourceValue)
    requires
        enum_variants(d).len() == 0,
    ensures
        !value_conforms(enum_variants(d), v),
{
}

} // verus!
