//! The rule descriptions that the front end hands to the generator: one
//! tagged rule kind per (field, rule) pair, an optional whole-structure
//! rule, and their well-formedness invariants.

use vstd::prelude::*;
use crate::text::{check_ident, check_path, is_valid_ident, is_valid_path};

verus! {

/// The closed catalogue of rule kinds, each with its own payload.
#[derive(Debug, Clone, PartialEq, Eq)]
pub enum Validator {
    /// Bounds on a value's length; each bound is independently optional.
    Length { min: Option<u64>, max: Option<u64>, equal: Option<u64> },
    /// Numeric bounds, compared in the emitted code after a coercion to a
    /// 64-bit floating-point representation.
    Range { min: i64, max: i64 },
    Email,
    Url,
    /// Equality against the named sibling field.
    MustMatch(String),
    /// A user-named checking function, given as a code path.
    Custom(String),
    /// A needle substring.
    Contains(String),
    /// A named, presumably precompiled pattern, given as a code path.
    Regex(String),
    CreditCard,
    Phone,
}

/// Spec-level form of [`Validator`], over sequences of characters.
pub enum ValidatorV {
    Length { min: Option<u64>, max: Option<u64>, equal: Option<u64> },
    Range { min: i64, max: i64 },
    Email,
    Url,
    MustMatch(Seq<char>),
    Custom(Seq<char>),
    Contains(Seq<char>),
    Regex(Seq<char>),
    CreditCard,
    Phone,
}

impl DeepView for Validator {
    type V = ValidatorV;

    open spec fn deep_view(&self) -> ValidatorV {
        match self {
            Validator::Length { min, max, equal } => ValidatorV::Length {
                min: *min,
                max: *max,
                equal: *equal,
            },
            Validator::Range { min, max } => ValidatorV::Range { min: *min, max: *max },
            Validator::Email => ValidatorV::Email,
            Validator::Url => ValidatorV::Url,
            Validator::MustMatch(other) => ValidatorV::MustMatch(other@),
            Validator::Custom(path) => ValidatorV::Custom(path@),
            Validator::Contains(needle) => ValidatorV::Contains(needle@),
            Validator::Regex(path) => ValidatorV::Regex(path@),
            Validator::CreditCard => ValidatorV::CreditCard,
            Validator::Phone => ValidatorV::Phone,
        }
    }
}

/// One rule attached to one field: the rule kind, the error code under
/// which failures are reported, and an optional custom message.
#[derive(Debug, Clone, PartialEq, Eq)]
pub struct FieldValidation {
    pub code: String,
    pub message: Option<String>,
    pub validator: Validator,
}

/// Spec-level form of [`FieldValidation`].
pub struct FieldValidationV {
    pub code: Seq<char>,
    pub message: Option<Seq<char>>,
    pub validator: ValidatorV,
}

impl DeepView for FieldValidation {
    type V = FieldValidationV;

    open spec fn deep_view(&self) -> FieldValidationV {
        FieldValidationV {
            code: self.code@,
            message: self.message.deep_view(),
            validator: self.validator.deep_view(),
        }
    }
}

impl FieldValidationV {
    /// The rule kind's payload is well-formed for its variant: a length
    /// rule carries at least one bound, a cross-field match names a
    /// well-formed sibling identifier, and a custom function or pattern is
    /// named by a well-formed code path.
    pub open spec fn wf(self) -> bool {
        match self.validator {
            ValidatorV::Length { min, max, equal } => min is Some || max is Some || equal is Some,
            ValidatorV::MustMatch(other) => is_valid_ident(other),
            ValidatorV::Custom(path) => is_valid_path(path),
            ValidatorV::Regex(path) => is_valid_path(path),
            _ => true,
        }
    }
}

/// Decides the well-formedness invariant of a field rule.
pub fn field_validation_wf(v: &FieldValidation) -> (r: bool)
    ensures
        r == v.deep_view().wf(),
{
    match &v.validator {
        Validator::Length { min, max, equal } => min.is_some() || max.is_some() || equal.is_some(),
        Validator::MustMatch(other) => check_ident(other.as_str()),
        Validator::Custom(path) => check_path(path.as_str()),
        Validator::Regex(path) => check_path(path.as_str()),
        _ => true,
    }
}

/// The whole-structure rule: a validating function applied to the entire
/// record, an optional custom message, and whether the check is skipped
/// when any per-field check has already failed.
#[derive(Debug, Clone, PartialEq, Eq)]
pub struct SchemaValidation {
    pub function: String,
    pub message: Option<String>,
    pub skip_on_field_errors: bool,
}

/// Spec-level form of [`SchemaValidation`].
pub struct SchemaValidationV {
    pub function: Seq<char>,
    pub message: Option<Seq<char>>,
    pub skip_on_field_errors: bool,
}

impl DeepView for SchemaValidation {
    type V = SchemaValidationV;

    open spec fn deep_view(&self) -> SchemaValidationV {
        SchemaValidationV {
            function: self.function@,
            message: self.message.deep_view(),
            skip_on_field_errors: self.skip_on_field_errors,
        }
    }
}

impl SchemaValidationV {
    /// The validating function is named by a well-formed identifier.
    pub open spec fn wf(self) -> bool {
        is_valid_ident(self.function)
    }
}

/// Decides the well-formedness invariant of a whole-structure rule.
pub fn schema_validation_wf(v: &SchemaValidation) -> (r: bool)
    ensures
        r == v.deep_view().wf(),
{
    check_ident(v.function.as_str())
}

} // verus!
