//! The failure taxonomy of the generation pipeline.
//!
//! Every failure aborts the whole generation of the declaration at the point
//! of detection: no partial output is ever produced. Each error carries the
//! names a build-time report needs; rendering them is left to the caller.

use vstd::prelude::*;

use crate::decl::LitKind;

verus! {

/// The ways a declaration can violate the structural shape of a C-like enum.
#[derive(Debug)]
pub enum StructuralIssue {
    /// The declaration is not a sum type.
    NotAnEnum { name: String },
    /// A variant carries payload fields.
    VariantHasFields { enum_name: String, variant: String },
    /// A `repr` attribute's argument is not a parenthesized identifier.
    MalformedAttribute { enum_name: String },
}

/// Why a variant lacks a usable literal discriminant.
#[derive(Clone, Copy, PartialEq, Eq, Structural, Debug)]
pub enum DiscriminantIssue {
    /// The variant declares no discriminant at all.
    Absent,
    /// The discriminant expression is not a literal.
    NonLiteral,
}

/// One failure of the generation pipeline.
#[derive(Debug)]
pub enum GenError {
    /// The declaration's shape is not that of a C-like enum.
    StructuralViolation(StructuralIssue),
    /// A variant lacks a literal discriminant.
    MissingDiscriminant { variant: String, issue: DiscriminantIssue },
    /// A discriminant literal's kind is not integer.
    UnsupportedDiscriminantKind { variant: String, kind: LitKind },
    /// No `repr(X)` annotation was found on an enum that has variants.
    MissingRepresentation { enum_name: String },
    /// The variants disagree on literal kind or numeric suffix. Carries the
    /// distinct kinds and suffixes observed, in order of first appearance.
    InconsistentDiscriminants { enum_name: String, kinds: Vec<LitKind>, suffixes: Vec<String> },
    /// The discriminants' numeric suffix does not match the declared
    /// `repr(X)` storage type.
    RepresentationMismatch { suffix: String, repr: String },
    /// A defensive check failed that upstream validation should have made
    /// unreachable.
    InternalInvariantViolation,
}

} // verus!
