//! The hard failures generation can report, and their diagnostic texts.

use vstd::prelude::*;

verus! {

/// A failure that aborts generation for the whole annotated item. Each
/// carries enough to point the host pipeline at the offending source
/// location; a malformed directive names the item or field it is attached
/// to.
#[derive(Debug, Clone, PartialEq, Eq)]
pub enum DeriveError {
    /// The annotated item is an enumeration.
    UnsupportedEnum,
    /// The annotated item is a union.
    UnsupportedUnion,
    /// The annotated item is a structure with unnamed (tuple-style) fields.
    UnnamedFields,
    /// A recognized directive carries an improperly shaped value, such as a
    /// `rename` without a string literal. `owner` is the name of the
    /// structure or field the directive is attached to.
    MalformedDirective { owner: String },
}

/// The diagnostic text of each failure.
pub open spec fn spec_message(e: DeriveError) -> Seq<char> {
    match e {
        DeriveError::UnsupportedEnum => "Builder derive does not work on enums"@,
        DeriveError::UnsupportedUnion => "Builder derive does not work on unions"@,
        DeriveError::UnnamedFields => "Builder derive only works on structs with named fields"@,
        DeriveError::MalformedDirective { .. } => "Failed to parse build_it attribute"@,
    }
}

impl DeriveError {
    /// The human-readable message the host pipeline surfaces for this
    /// failure.
    pub fn message(&self) -> (m: String)
        ensures
            m@ == spec_message(*self),
    {
        match self {
            DeriveError::UnsupportedEnum => "Builder derive does not work on enums".to_owned(),
            DeriveError::UnsupportedUnion => "Builder derive does not work on unions".to_owned(),
            DeriveError::UnnamedFields => {
                "Builder derive only works on structs with named fields".to_owned()
            },
            DeriveError::MalformedDirective { .. } => "Failed to parse build_it attribute".to_owned(),
        }
    }
}

/// The diagnostic text attached to a field whose declared type is not the
/// required optional-wrapper shape.
pub open spec fn spec_invalid_type_message() -> Seq<char> {
    "Builder only works on Option<T> fields. Consider using #[skip] to skip fields that should not be optional."@
}

/// The remediation message for a field of the wrong type shape: change the
/// field to the optional wrapper, or mark it skipped.
pub fn invalid_type_message() -> (m: String)
    ensures
        m@ == spec_invalid_type_message(),
{
    "Builder only works on Option<T> fields. Consider using #[skip] to skip fields that should not be optional."
        .to_owned()
}

} // verus!
