//! Directive parsing: from the raw annotation list of a structure or field
//! to its directive set.
//!
//! The recognized namespace is `build_it`. A field-level directive knows
//! the sub-options `skip` (flag), `into` (flag) and `rename` (string
//! value); the structure-level directive knows only `into`. Unknown
//! sub-options are ignored for forward compatibility; a recognized key in
//! the wrong shape — `rename` without a string literal, a flag carrying a
//! value — is a hard parse failure. Only the first `build_it` annotation of
//! an item is read.

use vstd::prelude::*;

use crate::ast::{AttrPayload, Attribute, Field, MacroInput, MetaItem};
use crate::error::DeriveError;

verus! {

/// The directive set of one field.
#[derive(Debug, Clone, PartialEq, Eq)]
pub struct Attr {
    pub skip: bool,
    pub into: bool,
    pub rename: Option<String>,
}

/// The directive set of the whole structure.
#[derive(Debug, Clone, PartialEq, Eq)]
pub struct GlobalAttr {
    pub into: bool,
}

/// The all-default field directive set: not skipped, no conversion, no
/// rename.
pub open spec fn attr_default() -> Attr {
    Attr { skip: false, into: false, rename: Option::None }
}

/// The first annotation in `attrs` whose path is exactly `name`, if any.
pub open spec fn find_attr(attrs: Seq<Attribute>, name: Seq<char>) -> Option<Attribute>
    decreases attrs.len(),
{
    if attrs.len() == 0 {
        Option::None
    } else if attrs[0].path@ == name {
        Option::Some(attrs[0])
    } else {
        find_attr(attrs.drop_first(), name)
    }
}

/// How one sub-option updates a field's directive set: `skip` and `into`
/// are flags, `rename` takes a string-literal value, a recognized key in
/// any other shape fails, and unknown keys are ignored.
pub open spec fn field_item_step(item: MetaItem, acc: Attr) -> Option<Attr> {
    match item {
        MetaItem::Flag(key) => if key@ == "skip"@ {
            Option::Some(Attr { skip: true, ..acc })
        } else if key@ == "into"@ {
            Option::Some(Attr { into: true, ..acc })
        } else if key@ == "rename"@ {
            Option::None
        } else {
            Option::Some(acc)
        },
        MetaItem::StrValue(key, value) => if key@ == "rename"@ {
            Option::Some(Attr { rename: Option::Some(value), ..acc })
        } else if key@ == "skip"@ || key@ == "into"@ {
            Option::None
        } else {
            Option::Some(acc)
        },
        MetaItem::OtherShape(key) => if key@ == "skip"@ || key@ == "into"@ || key@ == "rename"@ {
            Option::None
        } else {
            Option::Some(acc)
        },
    }
}

/// Left fold of `field_item_step` over a directive's sub-options, in
/// source order; a later `rename` overwrites an earlier one.
pub open spec fn fold_field_items(items: Seq<MetaItem>, acc: Attr) -> Option<Attr>
    decreases items.len(),
{
    if items.len() == 0 {
        Option::Some(acc)
    } else {
        match field_item_step(items[0], acc) {
            Option::Some(next) => fold_field_items(items.drop_first(), next),
            Option::None => Option::None,
        }
    }
}

/// The directive set of a field: the first `build_it` annotation parsed,
/// or all defaults when none is attached. `None` is a malformed directive
/// (a payload that is not a sub-option list, or a recognized key in the
/// wrong shape).
pub open spec fn spec_parse_attr(field: Field) -> Option<Attr> {
    match find_attr(field.attrs@, "build_it"@) {
        Option::None => Option::Some(attr_default()),
        Option::Some(attr) => match attr.payload {
            AttrPayload::Items(items) => fold_field_items(items@, attr_default()),
            _ => Option::None,
        },
    }
}

/// How one sub-option updates the structure-level directive set: only
/// `into` is recognized here; everything else is ignored.
pub open spec fn global_item_step(item: MetaItem, acc: GlobalAttr) -> Option<GlobalAttr> {
    match item {
        MetaItem::Flag(key) => if key@ == "into"@ {
            Option::Some(GlobalAttr { into: true })
        } else {
            Option::Some(acc)
        },
        MetaItem::StrValue(key, _value) => if key@ == "into"@ {
            Option::None
        } else {
            Option::Some(acc)
        },
        MetaItem::OtherShape(key) => if key@ == "into"@ {
            Option::None
        } else {
            Option::Some(acc)
        },
    }
}

/// Left fold of `global_item_step` over the structure directive's
/// sub-options.
pub open spec fn fold_global_items(items: Seq<MetaItem>, acc: GlobalAttr) -> Option<GlobalAttr>
    decreases items.len(),
{
    if items.len() == 0 {
        Option::Some(acc)
    } else {
        match global_item_step(items[0], acc) {
            Option::Some(next) => fold_global_items(items.drop_first(), next),
            Option::None => Option::None,
        }
    }
}

/// The structure-level directive set: the first `build_it` annotation on
/// the item parsed, or the default when none is attached.
pub open spec fn spec_parse_global(input: MacroInput) -> Option<GlobalAttr> {
    match find_attr(input.attrs@, "build_it"@) {
        Option::None => Option::Some(GlobalAttr { into: false }),
        Option::Some(attr) => match attr.payload {
            AttrPayload::Items(items) => fold_global_items(items@, GlobalAttr { into: false }),
            _ => Option::None,
        },
    }
}

/// Finds the position of the first `build_it` annotation in `attrs`.
fn find_build_it(attrs: &Vec<Attribute>) -> (r: Option<usize>)
    ensures
        match r {
            Option::Some(i) => i < attrs.len() && find_attr(attrs@, "build_it"@) == Option::Some(
                attrs@[i as int],
            ),
            Option::None => find_attr(attrs@, "build_it"@) == Option::<Attribute>::None,
        },
{
    let needle: String = "build_it".to_owned();
    let n = attrs.len();
    let mut i: usize = 0;
    assert(attrs@.subrange(0, n as int) =~= attrs@);
    while i < n
        invariant
            i <= n,
            n == attrs@.len(),
            needle@ == "build_it"@,
            find_attr(attrs@, "build_it"@) == find_attr(
                attrs@.subrange(i as int, n as int),
                "build_it"@,
            ),
        decreases n - i,
    {
        let ghost suffix = attrs@.subrange(i as int, n as int);
        assert(suffix[0] == attrs@[i as int]);
        if attrs[i].path == needle {
            assert(find_attr(suffix, "build_it"@) == Option::Some(attrs@[i as int]));
            return Option::Some(i);
        }
        assert(suffix.drop_first() =~= attrs@.subrange(i as int + 1, n as int));
        i += 1;
    }
    assert(attrs@.subrange(n as int, n as int).len() == 0);
    Option::None
}

/// Parses the directive set attached to one field: the `skip`, `into` and
/// `rename` sub-options of its first `build_it` annotation. A malformed
/// directive is reported against the field's name.
pub fn parse_attr(field: &Field) -> (r: Result<Attr, DeriveError>)
    ensures
        match r {
            Ok(a) => spec_parse_attr(*field) == Option::Some(a),
            Err(e) => spec_parse_attr(*field) == Option::<Attr>::None && (e
                matches DeriveError::MalformedDirective { owner } && owner == field.ident),
        },
{
    let mut result = Attr { skip: false, into: false, rename: None };
    assert(result == attr_default());
    let found = find_build_it(&field.attrs);
    let idx = match found {
        Option::Some(idx) => idx,
        Option::None => {
            return Ok(result);
        },
    };
    let items = match &field.attrs[idx].payload {
        AttrPayload::Items(items) => items,
        _ => {
            return Err(DeriveError::MalformedDirective { owner: field.ident.clone() });
        },
    };
    let n = items.len();
    let mut i: usize = 0;
    assert(items@.subrange(0, n as int) =~= items@);
    let skip_key: String = "skip".to_owned();
    let into_key: String = "into".to_owned();
    let rename_key: String = "rename".to_owned();
    while i < n
        invariant
            i <= n,
            n == items@.len(),
            skip_key@ == "skip"@,
            into_key@ == "into"@,
            rename_key@ == "rename"@,
            spec_parse_attr(*field) == fold_field_items(items@, attr_default()),
            fold_field_items(items@, attr_default()) == fold_field_items(
                items@.subrange(i as int, n as int),
                result,
            ),
        decreases n - i,
    {
        let ghost suffix = items@.subrange(i as int, n as int);
        let ghost prev = result;
        assert(suffix[0] == items@[i as int]);
        match &items[i] {
            MetaItem::Flag(key) => {
                if *key == skip_key {
                    result.skip = true;
                } else if *key == into_key {
                    result.into = true;
                } else if *key == rename_key {
                    assert(field_item_step(items@[i as int], prev) == Option::<Attr>::None);
                    return Err(DeriveError::MalformedDirective { owner: field.ident.clone() });
                }
            },
            MetaItem::StrValue(key, value) => {
                if *key == rename_key {
                    result.rename = Some(value.clone());
                } else if *key == skip_key || *key == into_key {
                    assert(field_item_step(items@[i as int], prev) == Option::<Attr>::None);
                    return Err(DeriveError::MalformedDirective { owner: field.ident.clone() });
                }
            },
            MetaItem::OtherShape(key) => {
                if *key == skip_key || *key == into_key || *key == rename_key {
                    assert(field_item_step(items@[i as int], prev) == Option::<Attr>::None);
                    return Err(DeriveError::MalformedDirective { owner: field.ident.clone() });
                }
            },
        }
        assert(field_item_step(items@[i as int], prev) == Option::Some(result));
        assert(suffix.drop_first() =~= items@.subrange(i as int + 1, n as int));
        i += 1;
    }
    assert(items@.subrange(n as int, n as int).len() == 0);
    Ok(result)
}

/// Parses the structure-level directive set: the `into` sub-option of the
/// item's first `build_it` annotation. A malformed directive is reported
/// against the item's name.
pub fn parse_global_attr(input: &MacroInput) -> (r: Result<GlobalAttr, DeriveError>)
    ensures
        match r {
            Ok(g) => spec_parse_global(*input) == Option::Some(g),
            Err(e) => spec_parse_global(*input) == Option::<GlobalAttr>::None && (e
                matches DeriveError::MalformedDirective { owner } && owner == input.ident),
        },
{
    let mut result = GlobalAttr { into: false };
    let found = find_build_it(&input.attrs);
    let idx = match found {
        Option::Some(idx) => idx,
        Option::None => {
            return Ok(result);
        },
    };
    let items = match &input.attrs[idx].payload {
        AttrPayload::Items(items) => items,
        _ => {
            return Err(DeriveError::MalformedDirective { owner: input.ident.clone() });
        },
    };
    let n = items.len();
    let mut i: usize = 0;
    assert(items@.subrange(0, n as int) =~= items@);
    let into_key: String = "into".to_owned();
    while i < n
        invariant
            i <= n,
            n == items@.len(),
            into_key@ == "into"@,
            spec_parse_global(*input) == fold_global_items(items@, GlobalAttr { into: false }),
            fold_global_items(items@, GlobalAttr { into: false }) == fold_global_items(
                items@.subrange(i as int, n as int),
                result,
            ),
        decreases n - i,
    {
        let ghost suffix = items@.subrange(i as int, n as int);
        let ghost prev = result;
        assert(suffix[0] == items@[i as int]);
        match &items[i] {
            MetaItem::Flag(key) => {
                if *key == into_key {
                    result.into = true;
                }
            },
            MetaItem::StrValue(key, _value) => {
                if *key == into_key {
                    assert(global_item_step(items@[i as int], prev) == Option::<GlobalAttr>::None);
                    return Err(DeriveError::MalformedDirective { owner: input.ident.clone() });
                }
            },
            MetaItem::OtherShape(key) => {
                if *key == into_key {
                    assert(global_item_step(items@[i as int], prev) == Option::<GlobalAttr>::None);
                    return Err(DeriveError::MalformedDirective { owner: input.ident.clone() });
                }
            },
        }
        assert(global_item_step(items@[i as int], prev) == Option::Some(result));
        assert(suffix.drop_first() =~= items@.subrange(i as int + 1, n as int));
        i += 1;
    }
    assert(items@.subrange(n as int, n as int).len() == 0);
    Ok(result)
}

} // verus!
