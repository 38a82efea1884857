//! Derivation of payload-less "kind" enums.
//!
//! Given a model of an annotated sum-type declaration, this library computes
//! the expansion that a kind-deriving attribute performs: a companion enum
//! that mirrors the source's variant names with every payload stripped, and a
//! conversion from the source type (by value and by reference) to that
//! companion enum.  The whole computation — configuration parsing, shape
//! validation, tag-type synthesis, conversion synthesis and the search for a
//! non-colliding synthetic lifetime — is verified.

pub mod ast;
pub mod config;
pub mod kind_enum;
pub mod conv;
pub mod eval;
pub mod laws;
pub mod lifetime;

use vstd::prelude::*;

use crate::ast::{is_enum, InputDecl};
use crate::config::{
    config_name_missing, config_ok, get_enum_specification, kind_attr_name, no_named_list, Config,
};
use crate::conv::{conversion_describes, create_impl, ConversionImpl};
use crate::kind_enum::{create_kind_enum, kind_enum_describes, KindEnumDecl};

verus! {

/// Conversion from a value to its payload-less kind.
///
/// Generated conversion implementations provide this trait for the source
/// type, with `Kind` set to the companion tag enum.
pub trait ToKind {
    type Kind;

    fn kind(&self) -> Self::Kind;
}

/// Why an expansion was refused.
#[derive(Debug, Clone, Copy, PartialEq, Eq, Structural)]
pub enum Error {
    /// No naming attribute was attached to the declaration.
    MissingAttribute,
    /// The naming attribute's first argument is absent or not a bare identifier.
    NameRequired,
    /// The annotated declaration is not an enum.
    NotAnEnum,
}

impl Error {
    /// The diagnostic text surfaced for this error.
    pub fn message(&self) -> (m: &'static str)
        ensures
            *self is MissingAttribute ==> m@ == "an associated enum_kind attribute must be specified"@,
            *self is NameRequired ==> m@ == "the enum_kind attribute requires a name to be specified"@,
            *self is NotAnEnum ==> m@ == "deriving a kind enum is only allowed for enums"@,
    {
        match self {
            Error::MissingAttribute => "an associated enum_kind attribute must be specified",
            Error::NameRequired => "the enum_kind attribute requires a name to be specified",
            Error::NotAnEnum => "deriving a kind enum is only allowed for enums",
        }
    }
}

/// The complete expansion for one annotated declaration: the kind enum's
/// declaration followed by the conversion implementations, ready to be
/// spliced back at the declaration's location.
#[derive(Debug, PartialEq, Eq)]
pub struct Expansion {
    /// The synthesized kind enum.
    pub kind_enum: KindEnumDecl,
    /// The synthesized conversion from the source enum to the kind enum.
    pub conversion: ConversionImpl,
}

/// Performs the whole expansion for one annotated declaration.
///
/// Succeeds exactly when the declaration carries a well-formed `enum_kind`
/// attribute and is an enum; the result is then the kind enum and the
/// conversion that the declaration and its configuration prescribe.  Each
/// failure is pinned to its cause: a missing naming attribute, a naming
/// attribute without a leading bare identifier, or a declaration that is
/// not an enum (the configuration is checked first, as its errors speak of
/// the annotation rather than the annotated item).
pub fn enum_kind(decl: &InputDecl) -> (r: Result<Expansion, Error>)
    requires
        decl.generics.params@.len() < usize::MAX,
    ensures
        match r {
            Ok(exp) => is_enum(*decl) && exists|cfg: Config|
                {
                    &&& #[trigger] config_ok(decl.attrs@, cfg)
                    &&& kind_enum_describes(*decl, cfg.kind_name, cfg.extra@, exp.kind_enum)
                    &&& conversion_describes(*decl, cfg.kind_name, exp.conversion)
                },
            Err(Error::MissingAttribute) => no_named_list(decl.attrs@, kind_attr_name()),
            Err(Error::NameRequired) => config_name_missing(decl.attrs@),
            Err(Error::NotAnEnum) => !is_enum(*decl) && exists|cfg: Config| #[trigger] config_ok(
                decl.attrs@,
                cfg,
            ),
        },
{
    let cfg = match get_enum_specification(decl) {
        Ok(cfg) => cfg,
        Err(e) => {
            return Err(e);
        },
    };
    let kind_enum = match create_kind_enum(decl, &cfg.kind_name, &cfg.extra) {
        Ok(k) => k,
        Err(e) => {
            return Err(e);
        },
    };
    let conversion = match create_impl(decl, &cfg.kind_name) {
        Ok(c) => c,
        Err(e) => {
            return Err(e);
        },
    };
    Ok(Expansion { kind_enum, conversion })
}

} // verus!
