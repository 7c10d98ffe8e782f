//! Edge cases of the generation pipeline: rejected item shapes, the
//! per-field invalid-type fragment, malformed directives, directive
//! precedence, and the exact diagnostic texts.

use build_it::ast::{
    ArgList, AttrPayload, Attribute, DataShape, Field, FieldList, GenericArg, MacroInput, MetaItem,
    PathSegment, TypeExpr,
};
use build_it::error::{invalid_type_message, DeriveError};
use build_it::generate::{derive_builder, BuilderOutput, GeneratedItem};

fn opt_ty(inner: &str) -> TypeExpr {
    TypeExpr::Path {
        segments: vec![PathSegment {
            ident: "Option".to_string(),
            args: ArgList::AngleBracketed(vec![GenericArg::TypeArg(inner.to_string())]),
        }],
    }
}

fn path_ty(name: &str) -> TypeExpr {
    TypeExpr::Path {
        segments: vec![PathSegment {
            ident: name.to_string(),
            args: ArgList::Missing,
        }],
    }
}

fn mk_field(name: &str, ty: TypeExpr, attrs: Vec<Attribute>) -> Field {
    Field {
        ident: name.to_string(),
        is_public: false,
        ty,
        attrs,
    }
}

fn directive(items: Vec<MetaItem>) -> Attribute {
    Attribute {
        path: "build_it".to_string(),
        payload: AttrPayload::Items(items),
    }
}

fn mk_input(name: &str, attrs: Vec<Attribute>, data: DataShape) -> MacroInput {
    MacroInput {
        attrs,
        ident: name.to_string(),
        generics: vec![],
        data,
    }
}

fn mk_struct(name: &str, attrs: Vec<Attribute>, fields: Vec<Field>) -> MacroInput {
    mk_input(name, attrs, DataShape::Structure(FieldList::Named(fields)))
}

fn expect_failure(out: BuilderOutput) -> DeriveError {
    match out {
        BuilderOutput::Failure(e) => e,
        other => panic!("expected a failure, got {:?}", other),
    }
}

fn expect_block_items(out: BuilderOutput) -> Vec<GeneratedItem> {
    match out {
        BuilderOutput::ImplBlock(block) => block.items,
        other => panic!("expected an impl block, got {:?}", other),
    }
}

#[test]
fn rejects_enums() {
    let input = mk_input("Color", vec![], DataShape::Enumeration);
    let err = expect_failure(derive_builder(&input));
    assert_eq!(err, DeriveError::UnsupportedEnum);
    assert_eq!(err.message(), "Builder derive does not work on enums");
}

#[test]
fn rejects_unions() {
    let input = mk_input("Raw", vec![], DataShape::Union);
    let err = expect_failure(derive_builder(&input));
    assert_eq!(err, DeriveError::UnsupportedUnion);
    assert_eq!(err.message(), "Builder derive does not work on unions");
}

#[test]
fn rejects_tuple_structs() {
    let input = mk_input("Pair", vec![], DataShape::Structure(FieldList::Unnamed));
    let err = expect_failure(derive_builder(&input));
    assert_eq!(err, DeriveError::UnnamedFields);
    assert_eq!(
        err.message(),
        "Builder derive only works on structs with named fields"
    );
}

#[test]
fn unit_struct_generates_nothing() {
    let input = mk_input("Marker", vec![], DataShape::Structure(FieldList::Unit));
    assert_eq!(derive_builder(&input), BuilderOutput::Empty);
}

#[test]
fn wrong_shape_reported_per_field() {
    let input = mk_struct(
        "Person",
        vec![],
        vec![
            mk_field("address", path_ty("String"), vec![]),
            mk_field("age", opt_ty("u32"), vec![]),
        ],
    );
    let items = expect_block_items(derive_builder(&input));
    assert_eq!(items.len(), 2);
    assert_eq!(
        items[0],
        GeneratedItem::InvalidField {
            field: "address".to_string()
        }
    );
    match &items[1] {
        GeneratedItem::Method(m) => assert_eq!(m.name, "age"),
        other => panic!("expected the sibling method, got {:?}", other),
    }
    assert_eq!(
        invalid_type_message(),
        "Builder only works on Option<T> fields. Consider using #[skip] to skip fields that should not be optional."
    );
}

#[test]
fn non_path_type_is_wrong_shape() {
    let input = mk_struct(
        "Holder",
        vec![],
        vec![mk_field(
            "pair",
            TypeExpr::Other("(u8, u8)".to_string()),
            vec![],
        )],
    );
    let items = expect_block_items(derive_builder(&input));
    assert_eq!(
        items[0],
        GeneratedItem::InvalidField {
            field: "pair".to_string()
        }
    );
}

#[test]
fn qualified_option_is_not_matched() {
    // The match is on the first path segment only: a fully qualified
    // `std::option::Option<T>` starts with `std` and is not recognized.
    let ty = TypeExpr::Path {
        segments: vec![
            PathSegment {
                ident: "std".to_string(),
                args: ArgList::Missing,
            },
            PathSegment {
                ident: "option".to_string(),
                args: ArgList::Missing,
            },
            PathSegment {
                ident: "Option".to_string(),
                args: ArgList::AngleBracketed(vec![GenericArg::TypeArg("u32".to_string())]),
            },
        ],
    };
    let input = mk_struct("Qualified", vec![], vec![mk_field("age", ty, vec![])]);
    let items = expect_block_items(derive_builder(&input));
    assert_eq!(
        items[0],
        GeneratedItem::InvalidField {
            field: "age".to_string()
        }
    );
}

#[test]
fn lifetime_first_argument_is_wrong_shape() {
    let ty = TypeExpr::Path {
        segments: vec![PathSegment {
            ident: "Option".to_string(),
            args: ArgList::AngleBracketed(vec![
                GenericArg::LifetimeArg("'a".to_string()),
                GenericArg::TypeArg("u32".to_string()),
            ]),
        }],
    };
    let input = mk_struct("Odd", vec![], vec![mk_field("age", ty, vec![])]);
    let items = expect_block_items(derive_builder(&input));
    assert_eq!(
        items[0],
        GeneratedItem::InvalidField {
            field: "age".to_string()
        }
    );
}

#[test]
fn rename_without_value_is_malformed() {
    let input = mk_struct(
        "Person",
        vec![],
        vec![mk_field(
            "name",
            opt_ty("String"),
            vec![directive(vec![MetaItem::Flag("rename".to_string())])],
        )],
    );
    let err = expect_failure(derive_builder(&input));
    assert_eq!(
        err,
        DeriveError::MalformedDirective {
            owner: "name".to_string()
        }
    );
    assert_eq!(err.message(), "Failed to parse build_it attribute");
}

#[test]
fn rename_with_wrong_literal_is_malformed() {
    let input = mk_struct(
        "Person",
        vec![],
        vec![mk_field(
            "name",
            opt_ty("String"),
            vec![directive(vec![MetaItem::OtherShape("rename".to_string())])],
        )],
    );
    let err = expect_failure(derive_builder(&input));
    assert_eq!(
        err,
        DeriveError::MalformedDirective {
            owner: "name".to_string()
        }
    );
}

#[test]
fn flag_with_value_is_malformed() {
    let input = mk_struct(
        "Person",
        vec![],
        vec![mk_field(
            "name",
            opt_ty("String"),
            vec![directive(vec![MetaItem::StrValue(
                "skip".to_string(),
                "yes".to_string(),
            )])],
        )],
    );
    let err = expect_failure(derive_builder(&input));
    assert_eq!(
        err,
        DeriveError::MalformedDirective {
            owner: "name".to_string()
        }
    );
}

#[test]
fn directive_without_item_list_is_malformed() {
    let input = mk_struct(
        "Person",
        vec![],
        vec![mk_field(
            "name",
            opt_ty("String"),
            vec![Attribute {
                path: "build_it".to_string(),
                payload: AttrPayload::Plain,
            }],
        )],
    );
    let err = expect_failure(derive_builder(&input));
    assert_eq!(
        err,
        DeriveError::MalformedDirective {
            owner: "name".to_string()
        }
    );
}

#[test]
fn malformed_global_directive_names_the_struct() {
    let input = mk_struct(
        "Person",
        vec![directive(vec![MetaItem::StrValue(
            "into".to_string(),
            "yes".to_string(),
        )])],
        vec![mk_field("name", opt_ty("String"), vec![])],
    );
    let err = expect_failure(derive_builder(&input));
    assert_eq!(
        err,
        DeriveError::MalformedDirective {
            owner: "Person".to_string()
        }
    );
}

#[test]
fn first_malformed_field_is_reported() {
    let input = mk_struct(
        "Person",
        vec![],
        vec![
            mk_field("fine", opt_ty("u32"), vec![]),
            mk_field(
                "bad",
                opt_ty("u32"),
                vec![directive(vec![MetaItem::Flag("rename".to_string())])],
            ),
            mk_field(
                "worse",
                opt_ty("u32"),
                vec![directive(vec![MetaItem::Flag("rename".to_string())])],
            ),
        ],
    );
    let err = expect_failure(derive_builder(&input));
    assert_eq!(
        err,
        DeriveError::MalformedDirective {
            owner: "bad".to_string()
        }
    );
}

#[test]
fn unknown_sub_options_are_ignored() {
    let input = mk_struct(
        "Person",
        vec![],
        vec![mk_field(
            "name",
            opt_ty("String"),
            vec![directive(vec![
                MetaItem::Flag("whatever".to_string()),
                MetaItem::StrValue("other".to_string(), "x".to_string()),
                MetaItem::OtherShape("weird".to_string()),
            ])],
        )],
    );
    let items = expect_block_items(derive_builder(&input));
    assert_eq!(items.len(), 1);
    match &items[0] {
        GeneratedItem::Method(m) => {
            assert_eq!(m.name, "name");
            assert!(!m.into);
        }
        other => panic!("expected a method, got {:?}", other),
    }
}

#[test]
fn only_first_directive_is_read() {
    let input = mk_struct(
        "Person",
        vec![],
        vec![mk_field(
            "name",
            opt_ty("String"),
            vec![
                directive(vec![MetaItem::Flag("skip".to_string())]),
                directive(vec![MetaItem::StrValue(
                    "rename".to_string(),
                    "other".to_string(),
                )]),
            ],
        )],
    );
    let items = expect_block_items(derive_builder(&input));
    assert_eq!(items.len(), 0);
}

#[test]
fn later_rename_overwrites_earlier() {
    let input = mk_struct(
        "Person",
        vec![],
        vec![mk_field(
            "name",
            opt_ty("String"),
            vec![directive(vec![
                MetaItem::StrValue("rename".to_string(), "first".to_string()),
                MetaItem::StrValue("rename".to_string(), "second".to_string()),
            ])],
        )],
    );
    let items = expect_block_items(derive_builder(&input));
    match &items[0] {
        GeneratedItem::Method(m) => {
            assert_eq!(m.name, "second");
            assert_eq!(m.field, "name");
        }
        other => panic!("expected a method, got {:?}", other),
    }
}

#[test]
fn bare_skip_marker_wins_over_everything() {
    // The legacy marker is honoured whatever payload it carries, and even
    // when the `build_it` directive beside it would be malformed: the
    // marker is checked first and the directive is never parsed.
    let input = mk_struct(
        "Person",
        vec![],
        vec![mk_field(
            "name",
            path_ty("String"),
            vec![
                Attribute {
                    path: "skip".to_string(),
                    payload: AttrPayload::Items(vec![MetaItem::Flag("x".to_string())]),
                },
                directive(vec![MetaItem::Flag("rename".to_string())]),
            ],
        )],
    );
    let items = expect_block_items(derive_builder(&input));
    assert_eq!(items.len(), 0);
}

#[test]
fn skip_allows_any_field_type() {
    let input = mk_struct(
        "Person",
        vec![],
        vec![
            mk_field(
                "address",
                path_ty("String"),
                vec![Attribute {
                    path: "skip".to_string(),
                    payload: AttrPayload::Plain,
                }],
            ),
            mk_field(
                "pair",
                TypeExpr::Other("(u8, u8)".to_string()),
                vec![directive(vec![MetaItem::Flag("skip".to_string())])],
            ),
            mk_field("age", opt_ty("u32"), vec![]),
        ],
    );
    let items = expect_block_items(derive_builder(&input));
    assert_eq!(items.len(), 1);
    match &items[0] {
        GeneratedItem::Method(m) => assert_eq!(m.name, "age"),
        other => panic!("expected a method, got {:?}", other),
    }
}

#[test]
fn field_level_into_converts_that_field_only() {
    let input = mk_struct(
        "Person",
        vec![],
        vec![
            mk_field(
                "name",
                opt_ty("String"),
                vec![directive(vec![MetaItem::Flag("into".to_string())])],
            ),
            mk_field("age", opt_ty("u32"), vec![]),
        ],
    );
    let items = expect_block_items(derive_builder(&input));
    match (&items[0], &items[1]) {
        (GeneratedItem::Method(m0), GeneratedItem::Method(m1)) => {
            assert!(m0.into);
            assert!(!m1.into);
        }
        other => panic!("expected two methods, got {:?}", other),
    }
}

#[test]
fn global_into_applies_to_undirected_fields() {
    let input = mk_struct(
        "Person",
        vec![directive(vec![MetaItem::Flag("into".to_string())])],
        vec![mk_field("name", opt_ty("String"), vec![])],
    );
    let items = expect_block_items(derive_builder(&input));
    match &items[0] {
        GeneratedItem::Method(m) => {
            assert!(m.into);
            assert_eq!(m.inner_ty, "String");
        }
        other => panic!("expected a method, got {:?}", other),
    }
}

#[test]
fn unknown_attributes_are_not_directives() {
    let input = mk_struct(
        "Person",
        vec![],
        vec![mk_field(
            "name",
            opt_ty("String"),
            vec![Attribute {
                path: "serde".to_string(),
                payload: AttrPayload::Other,
            }],
        )],
    );
    let items = expect_block_items(derive_builder(&input));
    assert_eq!(items.len(), 1);
}
