//! The type-shape check: is a declared type the single-argument optional
//! wrapper, and if so, what is its inner type?
//!
//! The match is purely syntactic: a path-style type whose first segment is
//! named `Option` and whose angle-bracketed argument list starts with a
//! type argument. Aliases of the wrapper are not resolved, and nested
//! wrappers are not unwrapped.

use vstd::prelude::*;

use crate::ast::{ArgList, GenericArg, PathSegment, TypeExpr};

verus! {

/// The inner type of an optional-wrapper type, as source text, or `None`
/// when `ty` does not have the required shape.
pub open spec fn spec_inner_type(ty: TypeExpr) -> Option<String> {
    match ty {
        TypeExpr::Path { segments } => if segments@.len() > 0 && segments@[0].ident@
            == "Option"@ {
            match segments@[0].args {
                ArgList::AngleBracketed(args) => if args@.len() > 0 {
                    match args@[0] {
                        GenericArg::TypeArg(inner) => Option::Some(inner),
                        _ => Option::None,
                    }
                } else {
                    Option::None
                },
                _ => Option::None,
            }
        } else {
            Option::None
        },
        TypeExpr::Other(_) => Option::None,
    }
}

/// Whether `ty` has the required optional-wrapper shape.
pub open spec fn is_option_shape(ty: TypeExpr) -> bool {
    spec_inner_type(ty) is Some
}

/// Gets the inner type of an `Option<T>` type, or `None` when the type is
/// not the required single-argument optional-wrapper shape.
pub fn get_inner_type(ty: &TypeExpr) -> (r: Option<String>)
    ensures
        r == spec_inner_type(*ty),
{
    let segments = match ty {
        TypeExpr::Path { segments } => segments,
        TypeExpr::Other(_) => {
            return None;
        },
    };
    if segments.len() == 0 {
        return None;
    }
    let first: &PathSegment = &segments[0];
    let wrapper: String = "Option".to_owned();
    if !(first.ident == wrapper) {
        return None;
    }
    let args = match &first.args {
        ArgList::AngleBracketed(args) => args,
        _ => {
            return None;
        },
    };
    if args.len() == 0 {
        return None;
    }
    match &args[0] {
        GenericArg::TypeArg(inner) => Some(inner.clone()),
        _ => None,
    }
}

} // verus!
