//! The meaning of a generated conversion: what the emitted case split
//! returns for a source value.
//!
//! A source value is, for the conversion's purposes, a variant name and a
//! payload; the generated arms match on the name and on the payload's shape
//! alone, never on its contents.  Evaluating a conversion against a value
//! makes that behaviour a checkable fact rather than a reading of emitted
//! tokens.

use vstd::prelude::*;

use crate::ast::FieldsKind;
use crate::conv::{ConversionBody, ConversionImpl, MatchArm};

verus! {

/// One named field of a source value's payload.
#[derive(Debug, PartialEq, Eq)]
pub struct NamedField {
    /// The field's name.
    pub name: String,
    /// The field's value, as opaque token text.
    pub value: String,
}

/// The payload a source value carries.  Field and element values are opaque
/// token text: the conversion never reads them.
#[derive(Debug, PartialEq, Eq)]
pub enum PayloadValue {
    /// No payload.
    Unit,
    /// Positional payload, e.g. the two fields of `First("Example", 32)`.
    Positional(Vec<String>),
    /// Named-field payload, e.g. the fields of `Foo { foo: "x", bar: 3 }`.
    Named(Vec<NamedField>),
}

/// A value of the source enum: which variant it is, and its payload.
#[derive(Debug, PartialEq, Eq)]
pub struct SourceValue {
    /// The variant the value was built from.
    pub variant: String,
    /// The payload it carries.
    pub payload: PayloadValue,
}

/// The shape of a payload: the only aspect a generated pattern inspects.
pub open spec fn payload_shape(p: PayloadValue) -> FieldsKind {
    match p {
        PayloadValue::Unit => FieldsKind::Unit,
        PayloadValue::Positional(_) => FieldsKind::Unnamed,
        PayloadValue::Named(_) => FieldsKind::Named,
    }
}

/// Whether a generated arm matches a source value: the names agree and the
/// payload has the shape the arm's pattern discards.  Payload contents play
/// no part.
pub open spec fn arm_admits(arm: MatchArm, v: SourceValue) -> bool {
    arm.variant@ == v.variant@ && arm.pattern == payload_shape(v.payload)
}

/// What a sequence of generated arms returns for a source value: the name
/// of the kind variant produced by the first arm that matches, if any.
pub open spec fn spec_eval_arms(arms: Seq<MatchArm>, v: SourceValue) -> Option<Seq<char>>
    decreases arms.len(),
{
    if arms.len() == 0 {
        None
    } else if arm_admits(arms[0], v) {
        Some(arms[0].variant@)
    } else {
        spec_eval_arms(arms.drop_first(), v)
    }
}

/// What a generated conversion body returns for a source value.  An
/// unreachable-code marker returns nothing: it stands in a body that no
/// value can reach.
pub open spec fn spec_eval(body: ConversionBody, v: SourceValue) -> Option<Seq<char>> {
    match body {
        ConversionBody::Unreachable => None,
        ConversionBody::MatchOver(arms) => spec_eval_arms(arms@, v),
    }
}

/// The shape of a payload, computed.
pub fn payload_shape_of(p: &PayloadValue) -> (k: FieldsKind)
    ensures
        k == payload_shape(*p),
{
    match p {
        PayloadValue::Unit => FieldsKind::Unit,
        PayloadValue::Positional(_) => FieldsKind::Unnamed,
        PayloadValue::Named(_) => FieldsKind::Named,
    }
}

/// Evaluates the reference-taking conversion on a borrowed source value:
/// returns the name of the kind variant the generated case split produces,
/// or nothing when no arm matches the value (as with the unreachable-code
/// marker of an uninhabited source).
pub fn eval_conversion_ref(conv: &ConversionImpl, value: &SourceValue) -> (r: Option<String>)
    ensures
        (r is Some) == (spec_eval(conv.body, *value) is Some),
        r matches Some(s) ==> spec_eval(conv.body, *value) matches Some(t) && s@ == t,
{
    let arms: &Vec<MatchArm> = match &conv.body {
        ConversionBody::Unreachable => {
            return None;
        },
        ConversionBody::MatchOver(arms) => arms,
    };
    let shape = payload_shape_of(&value.payload);
    let mut k: usize = 0;
    proof {
        assert(arms@.skip(0) =~= arms@);
    }
    while k < arms.len()
        invariant
            k <= arms@.len(),
            shape == payload_shape(value.payload),
            spec_eval(conv.body, *value) == spec_eval_arms(arms@, *value),
            spec_eval_arms(arms@, *value) == spec_eval_arms(arms@.skip(k as int), *value),
        decreases arms@.len() - k,
    {
        let arm = &arms[k];
        if arm.variant.eq(&value.variant) && arm.pattern == shape {
            proof {
                assert(arms@.skip(k as int)[0] == arms@[k as int]);
                assert(arm_admits(arms@[k as int], *value));
            }
            return Some(arm.variant.clone());
        }
        proof {
            assert(arms@.skip(k as int).drop_first() =~= arms@.skip(k as int + 1));
        }
        k = k + 1;
    }
    None
}

/// Evaluates the by-value conversion, which delegates to the
/// reference-taking one, exactly as the emitted implementation does.
pub fn eval_conversion_value(conv: &ConversionImpl, value: SourceValue) -> (r: Option<String>)
    ensures
        (r is Some) == (spec_eval(conv.body, value) is Some),
        r matches Some(s) ==> spec_eval(conv.body, value) matches Some(t) && s@ == t,
{
    eval_conversion_ref(conv, &value)
}

} // verus!
