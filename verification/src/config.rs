//! The attribute parser: turning the declaration's attributes into the
//! generation configuration.
//!
//! The configuration is carried by one list attribute named `enum_kind`.  Its
//! first argument must be a bare identifier — the requested name of the kind
//! enum; every further argument is preserved verbatim as an opaque capability
//! specifier to be re-attached to the generated type.  Other attributes on
//! the declaration are ignored, never misread.

use vstd::prelude::*;

use crate::ast::{AttrMeta, InputDecl, MetaArg};
use crate::ast::clone_meta_arg;
use crate::Error;

verus! {

/// The generation configuration extracted from the `enum_kind` attribute.
#[derive(Debug)]
pub struct Config {
    /// The requested name of the generated kind enum.
    pub kind_name: String,
    /// The remaining attribute arguments, preserved verbatim, to be attached
    /// to the generated type without interpretation.
    pub extra: Vec<MetaArg>,
}

/// Whether an attribute is a list attribute with the given name.
pub open spec fn is_named_list(a: AttrMeta, name: Seq<char>) -> bool {
    a matches AttrMeta::List(n, _) && n@ == name
}

/// The arguments of a list attribute (empty for the other shapes).
pub open spec fn list_args(a: AttrMeta) -> Seq<MetaArg> {
    match a {
        AttrMeta::List(_, args) => args@,
        _ => Seq::empty(),
    }
}

/// No attribute in the sequence is a list attribute with the given name.
pub open spec fn no_named_list(attrs: Seq<AttrMeta>, name: Seq<char>) -> bool {
    forall|j: int| 0 <= j < attrs.len() ==> !is_named_list(attrs[j], name)
}

/// Position `i` holds the first list attribute with the given name.
pub open spec fn named_list_at(attrs: Seq<AttrMeta>, name: Seq<char>, i: int) -> bool {
    &&& 0 <= i < attrs.len()
    &&& is_named_list(attrs[i], name)
    &&& forall|j: int| 0 <= j < i ==> !is_named_list(attrs[j], name)
}

/// The name of the attribute that configures the expansion.
pub open spec fn kind_attr_name() -> Seq<char> {
    "enum_kind"@
}

/// The name of the per-variant attribute that forces a discriminant value.
pub open spec fn value_attr_name() -> Seq<char> {
    "enum_kind_value"@
}

/// Finds the first list attribute with the given name and returns its
/// position; attributes of any other shape or name are skipped.
pub fn find_attribute(attrs: &Vec<AttrMeta>, name: &String) -> (r: Option<usize>)
    ensures
        match r {
            Some(i) => named_list_at(attrs@, name@, i as int),
            None => no_named_list(attrs@, name@),
        },
{
    let mut i: usize = 0;
    while i < attrs.len()
        invariant
            i <= attrs.len(),
            forall|j: int| 0 <= j < i ==> !is_named_list(attrs@[j], name@),
        decreases attrs.len() - i,
    {
        match &attrs[i] {
            AttrMeta::List(n, _) => {
                if n.eq(name) {
                    return Some(i);
                }
            },
            _ => {},
        }
        i = i + 1;
    }
    None
}

/// The configuration `cfg` is what the attributes prescribe: a first
/// `enum_kind` list attribute exists, its first argument is a bare path
/// naming the kind enum, and the remaining arguments are carried verbatim.
pub open spec fn config_ok(attrs: Seq<AttrMeta>, cfg: Config) -> bool {
    exists|i: int|
        #[trigger] named_list_at(attrs, kind_attr_name(), i) && {
            let args = list_args(attrs[i]);
            &&& args.len() >= 1
            &&& args[0] matches MetaArg::Path(p) && cfg.kind_name == p
            &&& cfg.extra@ == args.skip(1)
        }
}

/// The first `enum_kind` attribute exists but names no kind enum: its
/// argument list is empty or starts with something other than a bare path.
pub open spec fn config_name_missing(attrs: Seq<AttrMeta>) -> bool {
    exists|i: int|
        #[trigger] named_list_at(attrs, kind_attr_name(), i) && {
            let args = list_args(attrs[i]);
            args.len() == 0 || !(args[0] is Path)
        }
}

/// Extracts the generation configuration from the declaration's attributes.
///
/// Fails with `Error::MissingAttribute` exactly when no `enum_kind` list
/// attribute is attached, and with `Error::NameRequired` exactly when the
/// first such attribute's first argument is absent or not a bare identifier;
/// there is no silent default.
pub fn get_enum_specification(decl: &InputDecl) -> (r: Result<Config, Error>)
    ensures
        match r {
            Ok(cfg) => config_ok(decl.attrs@, cfg),
            Err(Error::MissingAttribute) => no_named_list(decl.attrs@, kind_attr_name()),
            Err(Error::NameRequired) => config_name_missing(decl.attrs@),
            Err(_) => false,
        },
{
    proof {
        reveal_strlit("enum_kind");
    }
    let attr_name: String = String::from_str("enum_kind");
    let at = match find_attribute(&decl.attrs, &attr_name) {
        Some(i) => i,
        None => {
            return Err(Error::MissingAttribute);
        },
    };
    match &decl.attrs[at] {
        AttrMeta::List(_, args) => {
            proof {
                assert(named_list_at(decl.attrs@, kind_attr_name(), at as int));
            }
            if args.len() == 0 {
                return Err(Error::NameRequired);
            }
            match &args[0] {
                MetaArg::Path(p) => {
                    let kind_name = p.clone();
                    let mut extra: Vec<MetaArg> = Vec::new();
                    let mut i: usize = 1;
                    while i < args.len()
                        invariant
                            1 <= i <= args@.len(),
                            extra@ == args@.subrange(1, i as int),
                        decreases args.len() - i,
                    {
                        extra.push(clone_meta_arg(&args[i]));
                        i = i + 1;
                        proof {
                            assert(extra@ =~= args@.subrange(1, i as int));
                        }
                    }
                    proof {
                        assert(extra@ =~= args@.skip(1));
                    }
                    Ok(Config { kind_name, extra })
                },
                _ => Err(Error::NameRequired),
            }
        },
        _ => {
            proof {
                assert(false);
            }
            Err(Error::NameRequired)
        },
    }
}

/// Whether the given specifiers already carry a documentation entry, i.e. a
/// `doc = ...` pair.
pub open spec fn spec_has_docs(args: Seq<MetaArg>) -> bool {
    exists|j: int|
        {
            &&& 0 <= j < args.len()
            &&& (#[trigger] args[j]) matches MetaArg::NameValue(n, _) && n@ == "doc"@
        }
}

/// Whether the pass-through specifiers already include documentation text.
///
/// When they do not, the synthesizer attaches a missing-docs exemption to the
/// generated type, so strict documentation checking does not fail on it.
pub fn has_docs(args: &Vec<MetaArg>) -> (r: bool)
    ensures
        r == spec_has_docs(args@),
{
    proof {
        reveal_strlit("doc");
    }
    let doc: String = String::from_str("doc");
    let mut i: usize = 0;
    while i < args.len()
        invariant
            i <= args.len(),
            doc@ == "doc"@,
            forall|j: int|
                0 <= j < i ==> !((#[trigger] args@[j]) matches MetaArg::NameValue(n, _) && n@
                    == "doc"@),
        decreases args.len() - i,
    {
        match &args[i] {
            MetaArg::NameValue(n, _) => {
                if n.eq(&doc) {
                    proof {
                        assert({
                            &&& 0 <= i < args@.len()
                            &&& (args@[i as int]) matches MetaArg::NameValue(m, _) && m@ == "doc"@
                        });
                    }
                    return true;
                }
            },
            _ => {},
        }
        i = i + 1;
    }
    false
}

} // verus!
