//! The guarantees of the generation pipeline, stated and proved once for
//! all inputs.
//!
//! Each proof function here is a law about `spec_field_outcome` and
//! `spec_item_seq`, the specifications the executable pipeline is verified
//! against, so everything shown here holds of what `derive_builder` and
//! `generate_builder_method` actually return.

use vstd::prelude::*;

use crate::ast::{Field, TypeExpr};
use crate::generate::{
    has_bare_skip, spec_doc_lines, spec_field_outcome, spec_fields_ok, spec_item_seq,
    spec_method_model, FieldOutcome, ItemModel,
};
use crate::parse::{spec_parse_attr, Attr};
use crate::shape::{is_option_shape, spec_inner_type};

verus! {

/// A field that generation must turn into a method: it is not skipped by
/// either marker form, its directive parses, and its declared type has the
/// required optional-wrapper shape.
pub open spec fn spec_field_eligible(field: Field) -> bool {
    &&& !has_bare_skip(field.attrs@)
    &&& spec_parse_attr(field) matches Option::Some(attr) && !attr.skip
    &&& is_option_shape(field.ty)
}

/// For a structure whose fields are all eligible — none marked skip, every
/// directive well formed, each field of the required shape — generation
/// produces exactly one method per field, in field declaration order, the
/// i-th method assigning the i-th field.
pub proof fn lemma_eligible_fields_generate_in_order(fields: Seq<Field>, global_into: bool)
    requires
        forall|i: int| 0 <= i < fields.len() ==> spec_field_eligible(#[trigger] fields[i]),
    ensures
        spec_fields_ok(fields, global_into),
        spec_item_seq(fields, global_into).len() == fields.len(),
        forall|i: int|
            0 <= i < fields.len() ==> ((#[trigger] spec_item_seq(fields, global_into)[i])
                matches ItemModel::Method(m) && m.field == fields[i].ident),
    decreases fields.len(),
{
    if fields.len() > 0 {
        let rest = fields.drop_first();
        assert forall|i: int| 0 <= i < rest.len() implies spec_field_eligible(
            #[trigger] rest[i],
        ) by {
            assert(rest[i] == fields[i + 1]);
        }
        lemma_eligible_fields_generate_in_order(rest, global_into);
        let head = fields[0];
        assert(spec_field_eligible(head));
        match spec_parse_attr(head) {
            Option::Some(attr) => {
                match spec_inner_type(head.ty) {
                    Option::Some(inner) => {
                        assert(spec_field_outcome(head, global_into) == FieldOutcome::Emit(
                            ItemModel::Method(spec_method_model(head, attr, global_into, inner)),
                        ));
                    },
                    Option::None => {
                        assert(false);
                    },
                }
            },
            Option::None => {
                assert(false);
            },
        }
        let items = spec_item_seq(fields, global_into);
        let rest_items = spec_item_seq(rest, global_into);
        assert(items.len() == 1 + rest_items.len());
        assert forall|i: int| 0 <= i < fields.len() implies (#[trigger] items[i])
            matches ItemModel::Method(m) && m.field == fields[i].ident by {
            if i > 0 {
                assert(items[i] == rest_items[i - 1]);
                assert(fields[i] == rest[i - 1]);
            }
        }
        assert forall|j: int| 0 <= j < fields.len() implies !(#[trigger] spec_field_outcome(
            fields[j],
            global_into,
        ) is Malformed) by {
            if j > 0 {
                assert(spec_field_outcome(rest[j - 1], global_into) == spec_field_outcome(
                    fields[j],
                    global_into,
                ));
            }
        }
    }
}

/// A field marked skip — by the legacy bare marker or by the `skip`
/// sub-option — generates no method and no error. Its declared type plays
/// no part: the outcome is the same whatever type the field is given, so a
/// skipped field may have any type without failing the shape check.
pub proof fn lemma_skip_suppresses_generation(field: Field, global_into: bool)
    requires
        has_bare_skip(field.attrs@) || (spec_parse_attr(field) matches Option::Some(attr)
            && attr.skip),
    ensures
        spec_field_outcome(field, global_into) == FieldOutcome::Skipped,
        forall|ty: TypeExpr| #[trigger]
            spec_field_outcome((Field { ty, ..field }), global_into) == FieldOutcome::Skipped,
{
    assert forall|ty: TypeExpr| #[trigger] spec_field_outcome((Field { ty, ..field }), global_into)
        == FieldOutcome::Skipped by {
        let retyped = Field { ty, ..field };
        assert(retyped.attrs == field.attrs);
        assert(spec_parse_attr(retyped) == spec_parse_attr(field));
    }
}

/// For a field carrying a `rename` directive, the generated method is
/// named by the rename value, not by the field; the field the method
/// assigns is still the original one.
pub proof fn lemma_rename_directs_method_name(
    field: Field,
    attr: Attr,
    new_name: String,
    global_into: bool,
)
    requires
        !has_bare_skip(field.attrs@),
        spec_parse_attr(field) == Option::Some(attr),
        !attr.skip,
        attr.rename == Option::Some(new_name),
        is_option_shape(field.ty),
    ensures
        spec_field_outcome(field, global_into) matches FieldOutcome::Emit(item) && (item
            matches ItemModel::Method(m) && m.name == new_name && m.field == field.ident),
{
}

/// A generated method converts its argument exactly when the field's own
/// `into` flag or the structure-level one is set — the global flag is OR'd
/// in, with no per-field opt-out — and with neither flag the parameter is
/// exactly the inner type.
pub proof fn lemma_into_mode(field: Field, attr: Attr, global_into: bool)
    requires
        !has_bare_skip(field.attrs@),
        spec_parse_attr(field) == Option::Some(attr),
        !attr.skip,
        is_option_shape(field.ty),
    ensures
        spec_field_outcome(field, global_into) matches FieldOutcome::Emit(item) && (item
            matches ItemModel::Method(m) && m.into == (attr.into || global_into)),
{
}

/// Every documentation line of a field appears attached to its generated
/// method, in the original order, unchanged.
pub proof fn lemma_docs_carried_over(field: Field, attr: Attr, global_into: bool)
    requires
        !has_bare_skip(field.attrs@),
        spec_parse_attr(field) == Option::Some(attr),
        !attr.skip,
        is_option_shape(field.ty),
    ensures
        spec_field_outcome(field, global_into) matches FieldOutcome::Emit(item) && (item
            matches ItemModel::Method(m) && m.docs == spec_doc_lines(field.attrs@)),
{
}

/// A non-skipped field whose declared type is not the optional-wrapper
/// shape yields the invalid-field-type error fragment naming exactly that
/// field. It is a fragment, not a whole-item failure: sibling fields still
/// generate.
pub proof fn lemma_wrong_shape_reported(field: Field, attr: Attr, global_into: bool)
    requires
        !has_bare_skip(field.attrs@),
        spec_parse_attr(field) == Option::Some(attr),
        !attr.skip,
        !is_option_shape(field.ty),
    ensures
        spec_field_outcome(field, global_into) == FieldOutcome::Emit(
            (ItemModel::InvalidField { field: field.ident }),
        ),
{
}

} // verus!
