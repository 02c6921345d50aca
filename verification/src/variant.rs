//! The variant validator.
//!
//! Checks one declared variant against the rules a C-like enum must
//! satisfy — no payload fields, an explicit discriminant, a literal
//! discriminant, an integer literal — and, for a valid variant, reads the
//! literal's kind and numeric suffix and synthesizes the match arm that
//! maps the discriminant value to the variant.

use vstd::prelude::*;

use crate::decl::{kind_of, DiscriminantExpr, FieldShape, Lit, LitKind, VariantDecl};
use crate::error::{DiscriminantIssue, GenError, StructuralIssue};
use crate::generated::MatchArm;

verus! {

/// Why a single variant cannot take part in a C-like conversion.
pub enum VariantIssue {
    /// The variant carries payload fields.
    HasFields,
    /// The variant declares no discriminant.
    NoDiscriminant,
    /// The discriminant expression is not a literal.
    NonLiteralDiscriminant,
    /// The discriminant literal's kind is not integer.
    NonIntegerKind,
}

/// Whether a field list carries any field.
pub open spec fn fields_present(f: FieldShape) -> bool {
    match f {
        FieldShape::Unit => false,
        FieldShape::Unnamed { count } => count > 0,
        FieldShape::Named { count } => count > 0,
    }
}

/// The first rule of the validator that `v` breaks, if any, in the order
/// the rules are applied.
pub open spec fn variant_issue(v: VariantDecl) -> Option<VariantIssue> {
    if fields_present(v.fields) {
        Some(VariantIssue::HasFields)
    } else {
        match v.discriminant {
            Option::None => Some(VariantIssue::NoDiscriminant),
            Option::Some(d) => match d {
                DiscriminantExpr::Other => Some(VariantIssue::NonLiteralDiscriminant),
                DiscriminantExpr::Literal(l) => if kind_of(l) is Int {
                    None
                } else {
                    Some(VariantIssue::NonIntegerKind)
                },
            },
        }
    }
}

/// The discriminant value of a variant with an integer literal
/// discriminant.
pub open spec fn variant_value(v: VariantDecl) -> u128 {
    match v.discriminant {
        Option::Some(DiscriminantExpr::Literal(Lit::Int { value, .. })) => value,
        _ => 0,
    }
}

/// The numeric suffix of a variant with an integer literal discriminant.
pub open spec fn variant_suffix(v: VariantDecl) -> Seq<char> {
    match v.discriminant {
        Option::Some(DiscriminantExpr::Literal(Lit::Int { suffix, .. })) => suffix@,
        _ => Seq::empty(),
    }
}

/// The kind of a variant's literal discriminant.
pub open spec fn variant_lit_kind(v: VariantDecl) -> LitKind {
    match v.discriminant {
        Option::Some(DiscriminantExpr::Literal(l)) => kind_of(l),
        _ => LitKind::Int,
    }
}

/// The outcome of validating one variant: the literal kind and numeric
/// suffix it contributes to the consistency sets, and its match arm.
pub struct VariantData {
    pub kind: LitKind,
    pub suffix: String,
    pub arm: MatchArm,
}

/// The variant validator.
///
/// Applies the rules in order and returns the error of the first one `v`
/// breaks; for a valid variant it returns the literal kind, the numeric
/// suffix, and the match arm mapping the discriminant value to the variant.
pub fn extract_variant_data(v: &VariantDecl, enum_name: &String) -> (r: Result<
    VariantData,
    GenError,
>)
    ensures
        match variant_issue(*v) {
            Option::None => r matches Ok(d) && d.kind == LitKind::Int && d.suffix@
                == variant_suffix(*v) && d.arm.value == variant_value(*v) && d.arm.suffix@
                == variant_suffix(*v) && d.arm.variant@ == v.name@,
            Option::Some(issue) => match issue {
                VariantIssue::HasFields => r matches Err(e) && e matches GenError::StructuralViolation(
                    StructuralIssue::VariantHasFields { enum_name: en, variant: vn },
                ) && en@ == enum_name@ && vn@ == v.name@,
                VariantIssue::NoDiscriminant => r matches Err(e)
                    && e matches GenError::MissingDiscriminant { variant: vn, issue: i } && vn@
                    == v.name@ && i == DiscriminantIssue::Absent,
                VariantIssue::NonLiteralDiscriminant => r matches Err(e)
                    && e matches GenError::MissingDiscriminant { variant: vn, issue: i } && vn@
                    == v.name@ && i == DiscriminantIssue::NonLiteral,
                VariantIssue::NonIntegerKind => r matches Err(e)
                    && e matches GenError::UnsupportedDiscriminantKind { variant: vn, kind: k }
                    && vn@ == v.name@ && k == variant_lit_kind(*v),
            },
        },
{
    let has_fields = match &v.fields {
        FieldShape::Unit => false,
        FieldShape::Unnamed { count } => *count > 0,
        FieldShape::Named { count } => *count > 0,
    };
    if has_fields {
        return Err(GenError::StructuralViolation(StructuralIssue::VariantHasFields {
            enum_name: enum_name.clone(),
            variant: v.name.clone(),
        }));
    }
    match &v.discriminant {
        Option::None => Err(GenError::MissingDiscriminant {
            variant: v.name.clone(),
            issue: DiscriminantIssue::Absent,
        }),
        Option::Some(DiscriminantExpr::Other) => Err(GenError::MissingDiscriminant {
            variant: v.name.clone(),
            issue: DiscriminantIssue::NonLiteral,
        }),
        Option::Some(DiscriminantExpr::Literal(l)) => match l {
            Lit::Int { value, suffix } => Ok(VariantData {
                kind: LitKind::Int,
                suffix: suffix.clone(),
                arm: MatchArm {
                    value: *value,
                    suffix: suffix.clone(),
                    variant: v.name.clone(),
                },
            }),
            _ => Err(GenError::UnsupportedDiscriminantKind {
                variant: v.name.clone(),
                kind: l.kind(),
            }),
        },
    }
}

} // verus!
