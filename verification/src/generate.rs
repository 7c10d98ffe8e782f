//! The generation pipeline: from the annotated item's descriptor to the
//! builder methods to emit for it.
//!
//! Per field, in declaration order: a field marked skip (by the legacy bare
//! marker or the `skip` sub-option) contributes nothing, and its declared
//! type is never checked; otherwise the field must have the
//! optional-wrapper shape, and yields one public consuming-self method —
//! named by `rename` or by the field itself, taking either exactly the
//! inner type or anything convertible into it, carrying the field's
//! documentation lines — or, for a field of the wrong shape, an error
//! fragment that reports the failure against that field alone. A malformed
//! directive aborts generation for the whole item.

use vstd::prelude::*;

use crate::ast::{AttrPayload, Attribute, DataShape, Field, FieldList, MacroInput};
use crate::error::DeriveError;
use crate::parse::{parse_attr, parse_global_attr, spec_parse_attr, spec_parse_global};
use crate::parse::{Attr, GlobalAttr};
use crate::shape::{get_inner_type, spec_inner_type};

verus! {

/// One builder method to emit.
#[derive(Debug, Clone, PartialEq, Eq)]
pub struct MethodSpec {
    /// The method's name: the `rename` value if given, else the field's
    /// name.
    pub name: String,
    /// The field the method assigns; always the field's own name, whatever
    /// the method is called.
    pub field: String,
    /// The field's documentation lines, in source order, to attach to the
    /// method.
    pub docs: Vec<String>,
    /// The inner type of the field's optional wrapper, as source text: the
    /// method's parameter type.
    pub inner_ty: String,
    /// When set, the method's parameter is anything convertible into the
    /// inner type and the stored value is the converted result; when
    /// clear, the parameter is exactly the inner type.
    pub into: bool,
}

/// One fragment of the generated implementation block.
#[derive(Debug, Clone, PartialEq, Eq)]
pub enum GeneratedItem {
    /// A builder method.
    Method(MethodSpec),
    /// An error fragment: the named field is not skipped and its declared
    /// type is not the optional-wrapper shape. Siblings still generate.
    InvalidField { field: String },
}

/// The generated implementation block: the structure's name, its full
/// generic-parameter list, and the fragments in field declaration order.
#[derive(Debug, Clone, PartialEq, Eq)]
pub struct ImplSpec {
    pub struct_name: String,
    pub generics: Vec<String>,
    pub items: Vec<GeneratedItem>,
}

/// Everything the generator can hand back for one annotated item.
#[derive(Debug, Clone, PartialEq, Eq)]
pub enum BuilderOutput {
    /// An implementation block to splice in.
    ImplBlock(ImplSpec),
    /// Nothing to emit: the item is a unit structure.
    Empty,
    /// A failure that aborts generation for the whole item.
    Failure(DeriveError),
}

/// Mathematical model of a generated method, with the documentation lines
/// as a sequence.
pub struct MethodModel {
    pub name: String,
    pub field: String,
    pub docs: Seq<String>,
    pub inner_ty: String,
    pub into: bool,
}

/// Mathematical model of one fragment.
pub enum ItemModel {
    Method(MethodModel),
    InvalidField { field: String },
}

/// Mathematical model of the implementation block.
pub struct ImplModel {
    pub struct_name: String,
    pub generics: Seq<String>,
    pub items: Seq<ItemModel>,
}

/// Mathematical model of the generator's result.
pub enum OutputModel {
    ImplBlock(ImplModel),
    Empty,
    Failure(DeriveError),
}

impl View for MethodSpec {
    type V = MethodModel;

    open spec fn view(&self) -> MethodModel {
        MethodModel {
            name: self.name,
            field: self.field,
            docs: self.docs@,
            inner_ty: self.inner_ty,
            into: self.into,
        }
    }
}

impl View for GeneratedItem {
    type V = ItemModel;

    open spec fn view(&self) -> ItemModel {
        match self {
            GeneratedItem::Method(m) => ItemModel::Method(m@),
            GeneratedItem::InvalidField { field } => ItemModel::InvalidField { field: *field },
        }
    }
}

/// The models of a sequence of fragments.
pub open spec fn items_view(items: Seq<GeneratedItem>) -> Seq<ItemModel> {
    items.map_values(|item: GeneratedItem| item@)
}

impl View for ImplSpec {
    type V = ImplModel;

    open spec fn view(&self) -> ImplModel {
        ImplModel {
            struct_name: self.struct_name,
            generics: self.generics@,
            items: items_view(self.items@),
        }
    }
}

impl View for BuilderOutput {
    type V = OutputModel;

    open spec fn view(&self) -> OutputModel {
        match self {
            BuilderOutput::ImplBlock(ispec) => OutputModel::ImplBlock(ispec@),
            BuilderOutput::Empty => OutputModel::Empty,
            BuilderOutput::Failure(e) => OutputModel::Failure(*e),
        }
    }
}

/// Whether any annotation is the legacy bare skip marker. It is honoured
/// whatever payload it carries, and before the `build_it` directive is
/// even parsed.
pub open spec fn has_bare_skip(attrs: Seq<Attribute>) -> bool {
    exists|j: int| 0 <= j < attrs.len() && (#[trigger] attrs[j]).path@ == "skip"@
}

/// The documentation lines among a field's annotations: the string values
/// of its `doc` annotations, in source order.
pub open spec fn spec_doc_lines(attrs: Seq<Attribute>) -> Seq<String>
    decreases attrs.len(),
{
    if attrs.len() == 0 {
        Seq::empty()
    } else {
        let rest = spec_doc_lines(attrs.drop_first());
        if attrs[0].path@ == "doc"@ {
            match attrs[0].payload {
                AttrPayload::ValueStr(line) => seq![line] + rest,
                _ => rest,
            }
        } else {
            rest
        }
    }
}

/// The generated method's name: the `rename` value if the directive gives
/// one, else the field's own name.
pub open spec fn spec_resolved_name(field: Field, attr: Attr) -> String {
    match attr.rename {
        Option::Some(name) => name,
        Option::None => field.ident,
    }
}

/// The method generated for a non-skipped field of the required shape,
/// given its directive set, the structure-level `into` flag, and the
/// extracted inner type.
pub open spec fn spec_method_model(
    field: Field,
    attr: Attr,
    global_into: bool,
    inner: String,
) -> MethodModel {
    MethodModel {
        name: spec_resolved_name(field, attr),
        field: field.ident,
        docs: spec_doc_lines(field.attrs@),
        inner_ty: inner,
        into: attr.into || global_into,
    }
}

/// What one field contributes to the generated block.
pub enum FieldOutcome {
    /// The field's directive is malformed: generation of the whole item
    /// fails.
    Malformed,
    /// The field is marked skip: no fragment, and no check of its type.
    Skipped,
    /// The field yields a fragment: a method, or an error fragment for a
    /// field whose type is not the required shape.
    Emit(ItemModel),
}

/// The outcome of one field, in order: the bare skip marker wins over
/// everything; then the directive set is parsed; a `skip` sub-option
/// suppresses the field; otherwise the declared type must be the
/// optional-wrapper shape, and the field yields its method or, for a type
/// of the wrong shape, an error fragment naming the field.
pub open spec fn spec_field_outcome(field: Field, global_into: bool) -> FieldOutcome {
    if has_bare_skip(field.attrs@) {
        FieldOutcome::Skipped
    } else {
        match spec_parse_attr(field) {
            Option::None => FieldOutcome::Malformed,
            Option::Some(attr) => if attr.skip {
                FieldOutcome::Skipped
            } else {
                match spec_inner_type(field.ty) {
                    Option::None => FieldOutcome::Emit(
                        ItemModel::InvalidField { field: field.ident },
                    ),
                    Option::Some(inner) => FieldOutcome::Emit(
                        ItemModel::Method(spec_method_model(field, attr, global_into, inner)),
                    ),
                }
            },
        }
    }
}

/// Whether no field of the list has a malformed directive.
pub open spec fn spec_fields_ok(fields: Seq<Field>, global_into: bool) -> bool {
    forall|j: int|
        0 <= j < fields.len() ==> !(#[trigger] spec_field_outcome(fields[j], global_into)
            is Malformed)
}

/// The fragments of the generated block: each field's contribution, in
/// declaration order, skipped fields contributing nothing.
pub open spec fn spec_item_seq(fields: Seq<Field>, global_into: bool) -> Seq<ItemModel>
    decreases fields.len(),
{
    if fields.len() == 0 {
        Seq::empty()
    } else {
        let rest = spec_item_seq(fields.drop_first(), global_into);
        match spec_field_outcome(fields[0], global_into) {
            FieldOutcome::Emit(item) => seq![item] + rest,
            _ => rest,
        }
    }
}

/// The name of the first field whose directive is malformed; the reported
/// failure points at it.
pub open spec fn spec_first_malformed(fields: Seq<Field>, global_into: bool) -> String
    decreases fields.len(),
{
    if fields.len() == 0 {
        arbitrary()
    } else if spec_field_outcome(fields[0], global_into) is Malformed {
        fields[0].ident
    } else {
        spec_first_malformed(fields.drop_first(), global_into)
    }
}

/// The whole transformation: the structure-level directive is parsed
/// first; enumerations, unions and tuple-style structures are rejected; a
/// unit structure yields nothing; a structure with named fields yields one
/// implementation block with every field's fragment in order, unless some
/// field's directive is malformed, which fails the whole item and names
/// the first such field.
pub open spec fn spec_derive(input: MacroInput) -> OutputModel {
    match spec_parse_global(input) {
        Option::None => OutputModel::Failure(
            DeriveError::MalformedDirective { owner: input.ident },
        ),
        Option::Some(global_attr) => match input.data {
            DataShape::Enumeration => OutputModel::Failure(DeriveError::UnsupportedEnum),
            DataShape::Union => OutputModel::Failure(DeriveError::UnsupportedUnion),
            DataShape::Structure(field_list) => match field_list {
                FieldList::Named(fields) => if spec_fields_ok(fields@, global_attr.into) {
                    OutputModel::ImplBlock(
                        ImplModel {
                            struct_name: input.ident,
                            generics: input.generics@,
                            items: spec_item_seq(fields@, global_attr.into),
                        },
                    )
                } else {
                    OutputModel::Failure(
                        DeriveError::MalformedDirective {
                            owner: spec_first_malformed(fields@, global_attr.into),
                        },
                    )
                },
                FieldList::Unit => OutputModel::Empty,
                FieldList::Unnamed => OutputModel::Failure(DeriveError::UnnamedFields),
            },
        },
    }
}

/// Whether the legacy bare `skip` marker stands among the annotations.
fn has_skip_marker(attrs: &Vec<Attribute>) -> (r: bool)
    ensures
        r == has_bare_skip(attrs@),
{
    let needle: String = "skip".to_owned();
    let n = attrs.len();
    let mut i: usize = 0;
    while i < n
        invariant
            i <= n,
            n == attrs@.len(),
            needle@ == "skip"@,
            forall|j: int| 0 <= j < i ==> (#[trigger] attrs@[j]).path@ != "skip"@,
        decreases n - i,
    {
        if attrs[i].path == needle {
            assert(has_bare_skip(attrs@));
            return true;
        }
        i += 1;
    }
    false
}

/// Collects the string values of the `doc` annotations, in source order.
fn collect_doc_lines(attrs: &Vec<Attribute>) -> (r: Vec<String>)
    ensures
        r@ == spec_doc_lines(attrs@),
{
    let needle: String = "doc".to_owned();
    let n = attrs.len();
    let mut lines: Vec<String> = Vec::new();
    let mut i: usize = 0;
    assert(attrs@.subrange(0, n as int) =~= attrs@);
    while i < n
        invariant
            i <= n,
            n == attrs@.len(),
            needle@ == "doc"@,
            spec_doc_lines(attrs@) == lines@ + spec_doc_lines(
                attrs@.subrange(i as int, n as int),
            ),
        decreases n - i,
    {
        let ghost suffix = attrs@.subrange(i as int, n as int);
        let ghost prev = lines@;
        assert(suffix[0] == attrs@[i as int]);
        if attrs[i].path == needle {
            match &attrs[i].payload {
                AttrPayload::ValueStr(line) => {
                    lines.push(line.clone());
                    proof {
                        let orig = attrs@[i as int].payload->ValueStr_0;
                        assert(lines@ =~= prev + seq![orig]);
                        assert(spec_doc_lines(suffix) == seq![orig] + spec_doc_lines(
                            suffix.drop_first(),
                        ));
                        assert(prev + (seq![orig] + spec_doc_lines(suffix.drop_first())) =~= (prev
                            + seq![orig]) + spec_doc_lines(suffix.drop_first()));
                    }
                },
                _ => {},
            }
        }
        assert(suffix.drop_first() =~= attrs@.subrange(i as int + 1, n as int));
        i += 1;
    }
    assert(attrs@.subrange(n as int, n as int).len() == 0);
    assert(lines@ + spec_doc_lines(attrs@.subrange(n as int, n as int)) =~= lines@);
    lines
}

/// Copies a list of strings; the generated block carries the structure's
/// generic parameters through unchanged.
fn clone_strings(v: &Vec<String>) -> (r: Vec<String>)
    ensures
        r@ == v@,
{
    let n = v.len();
    let mut out: Vec<String> = Vec::new();
    let mut i: usize = 0;
    while i < n
        invariant
            i <= n,
            n == v@.len(),
            out@.len() == i,
            forall|j: int| 0 <= j < i ==> out@[j] == v@[j],
        decreases n - i,
    {
        out.push(v[i].clone());
        i += 1;
    }
    assert(out@ =~= v@);
    out
}

/// Generates the builder-method fragment for one field: `Ok(None)` for a
/// skipped field, `Ok(Some(..))` for a method or an error fragment, and
/// `Err(..)` for a malformed directive.
pub fn generate_builder_method(field: &Field, global_attr: &GlobalAttr) -> (r: Result<
    Option<GeneratedItem>,
    DeriveError,
>)
    ensures
        match r {
            Ok(fragment) => match fragment {
                Option::None => spec_field_outcome(*field, global_attr.into)
                    == FieldOutcome::Skipped,
                Option::Some(item) => spec_field_outcome(*field, global_attr.into)
                    == FieldOutcome::Emit(item@),
            },
            Err(e) => spec_field_outcome(*field, global_attr.into) == FieldOutcome::Malformed && (e
                matches DeriveError::MalformedDirective { owner } && owner == field.ident),
        },
{
    if has_skip_marker(&field.attrs) {
        return Ok(None);
    }
    let attr = match parse_attr(field) {
        Ok(attr) => attr,
        Err(e) => {
            return Err(e);
        },
    };
    if attr.skip {
        return Ok(None);
    }
    let inner = match get_inner_type(&field.ty) {
        Some(inner) => inner,
        None => {
            return Ok(Some(GeneratedItem::InvalidField { field: field.ident.clone() }));
        },
    };
    let name = match &attr.rename {
        Some(rename) => rename.clone(),
        None => field.ident.clone(),
    };
    let docs = collect_doc_lines(&field.attrs);
    let method = MethodSpec {
        name,
        field: field.ident.clone(),
        docs,
        inner_ty: inner,
        into: attr.into || global_attr.into,
    };
    Ok(Some(GeneratedItem::Method(method)))
}

/// Generates the implementation block for a structure with named fields:
/// every field's fragment in declaration order, or the failure of the
/// first field with a malformed directive.
pub fn generate_builder_impl(input: &MacroInput, global_attr: &GlobalAttr, fields: &Vec<
    Field,
>) -> (r: Result<ImplSpec, DeriveError>)
    ensures
        match r {
            Ok(ispec) => spec_fields_ok(fields@, global_attr.into) && ispec@.items
                == spec_item_seq(fields@, global_attr.into) && ispec@.struct_name == input.ident
                && ispec@.generics == input.generics@,
            Err(e) => !spec_fields_ok(fields@, global_attr.into) && (e
                matches DeriveError::MalformedDirective { owner } && owner == spec_first_malformed(
                fields@,
                global_attr.into,
            )),
        },
{
    let n = fields.len();
    let mut items: Vec<GeneratedItem> = Vec::new();
    let mut i: usize = 0;
    assert(fields@.subrange(0, n as int) =~= fields@);
    while i < n
        invariant
            i <= n,
            n == fields@.len(),
            forall|j: int|
                0 <= j < i ==> !(#[trigger] spec_field_outcome(fields@[j], global_attr.into)
                    is Malformed),
            spec_item_seq(fields@, global_attr.into) == items_view(items@) + spec_item_seq(
                fields@.subrange(i as int, n as int),
                global_attr.into,
            ),
            spec_first_malformed(fields@, global_attr.into) == spec_first_malformed(
                fields@.subrange(i as int, n as int),
                global_attr.into,
            ),
        decreases n - i,
    {
        let ghost suffix = fields@.subrange(i as int, n as int);
        let ghost prev = items@;
        assert(suffix[0] == fields@[i as int]);
        match generate_builder_method(&fields[i], global_attr) {
            Ok(fragment) => match fragment {
                Option::None => {},
                Option::Some(item) => {
                    let ghost item_model = item@;
                    items.push(item);
                    proof {
                        assert(items_view(items@) =~= items_view(prev) + seq![item_model]);
                        assert((items_view(prev) + seq![item_model]) + spec_item_seq(
                            suffix.drop_first(),
                            global_attr.into,
                        ) =~= items_view(prev) + (seq![item_model] + spec_item_seq(
                            suffix.drop_first(),
                            global_attr.into,
                        )));
                    }
                },
            },
            Err(e) => {
                proof {
                    assert(spec_field_outcome(fields@[i as int], global_attr.into)
                        == FieldOutcome::Malformed);
                    assert(!spec_fields_ok(fields@, global_attr.into));
                    assert(spec_first_malformed(suffix, global_attr.into) == fields@[i as int].ident);
                }
                return Err(e);
            },
        }
        assert(suffix.drop_first() =~= fields@.subrange(i as int + 1, n as int));
        i += 1;
    }
    proof {
        assert(fields@.subrange(n as int, n as int).len() == 0);
        assert(items_view(items@) + spec_item_seq(
            fields@.subrange(n as int, n as int),
            global_attr.into,
        ) =~= items_view(items@));
    }
    let ispec = ImplSpec {
        struct_name: input.ident.clone(),
        generics: clone_strings(&input.generics),
        items,
    };
    Ok(ispec)
}

/// Derives the builder pattern for one annotated item: the verified
/// counterpart of the macro's entry point, from descriptor to generated
/// block, failure, or nothing.
pub fn derive_builder(input: &MacroInput) -> (r: BuilderOutput)
    ensures
        r@ == spec_derive(*input),
{
    let global_attr = match parse_global_attr(input) {
        Ok(global_attr) => global_attr,
        Err(e) => {
            return BuilderOutput::Failure(e);
        },
    };
    match &input.data {
        DataShape::Enumeration => BuilderOutput::Failure(DeriveError::UnsupportedEnum),
        DataShape::Union => BuilderOutput::Failure(DeriveError::UnsupportedUnion),
        DataShape::Structure(field_list) => match field_list {
            FieldList::Named(fields) => match generate_builder_impl(input, &global_attr, fields) {
                Ok(ispec) => BuilderOutput::ImplBlock(ispec),
                Err(e) => BuilderOutput::Failure(e),
            },
            FieldList::Unit => BuilderOutput::Empty,
            FieldList::Unnamed => BuilderOutput::Failure(DeriveError::UnnamedFields),
        },
    }
}

} // verus!
