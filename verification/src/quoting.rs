//! The rule-to-code translation layer. A [`FieldQuoter`] decides, per
//! field, how the generated code accesses the field's value and whether a
//! rule's check must be nested inside optional-unwrap guards; one
//! translator per rule kind builds the guarded check, the error
//! construction and the diagnostic parameters; and the assembly step
//! sequences every per-field fragment with the whole-structure fragment
//! last.

use vstd::prelude::*;
use crate::fragment::{
    Cond, CondV, ErrorTemplate, ErrorTemplateV, Expr, ExprV, Fragment, FragmentV, Param, ParamKey,
    ParamV, ParamValue, ParamValueV, Pattern, PatternV, ValidationBody,
};
use crate::rules::{
    FieldValidation, FieldValidationV, SchemaValidation, SchemaValidationV, Validator, ValidatorV,
};
use crate::text::clone_opt_string;
use crate::shape::{
    is_double_option_ref_type, is_double_option_type, is_number_type, is_number_type_name,
    is_option_ref_type, is_option_type, is_ref_type, type_is_double_option,
    type_is_double_option_ref, type_is_option, type_is_option_ref, type_is_ref,
};

verus! {

/// Everything needed for translating one field's rules: the binding
/// identity used to address the field in generated code, the declared
/// name used as the error key, and the textual form of the field's type.
#[derive(Debug, Clone, PartialEq, Eq)]
pub struct FieldQuoter {
    ident: String,
    /// The field name
    name: String,
    /// The field type
    _type: String,
}

/// Spec-level form of [`FieldQuoter`].
pub struct FieldQuoterV {
    pub ident: Seq<char>,
    pub name: Seq<char>,
    pub ty: Seq<char>,
}

impl View for FieldQuoter {
    type V = FieldQuoterV;

    closed spec fn view(&self) -> FieldQuoterV {
        FieldQuoterV { ident: self.ident@, name: self.name@, ty: self._type@ }
    }
}

impl FieldQuoterV {
    /// The direct access strategy: the bare unwrapped binding when the
    /// type is optional (the unwrap guard is already in scope), the value
    /// itself when the type is a reference or a numeric primitive, and an
    /// explicit reference otherwise.
    pub open spec fn quoted_param(self) -> ExprV {
        if is_option_type(self.ty) {
            ExprV::Binding(self.ident)
        } else if is_ref_type(self.ty) || is_number_type_name(self.ty) {
            ExprV::SelfField(self.ident)
        } else {
            ExprV::RefSelfField(self.ident)
        }
    }

    /// The unwrap pattern used inside an optional-unwrap guard: by value
    /// when the inner type is itself a reference or a numeric primitive,
    /// by reference otherwise.
    pub open spec fn optional_pattern(self) -> PatternV {
        if is_option_ref_type(self.ty) || is_double_option_ref_type(self.ty)
            || is_number_type_name(self.ty) {
            PatternV::ByValue(self.ident)
        } else {
            PatternV::ByRef(self.ident)
        }
    }

    /// Nesting of a finished check under the field's optional layers: two
    /// guards for an optional-of-optional shape, one guard for a single
    /// optional layer, and the fragment unmodified otherwise.
    pub open spec fn wrapped(self, inner: FragmentV) -> FragmentV {
        if is_double_option_type(self.ty) {
            FragmentV::IfLetSomeSome {
                field: self.ident,
                pattern: self.optional_pattern(),
                inner: Box::new(inner),
            }
        } else if is_option_type(self.ty) {
            FragmentV::IfLetSome {
                field: self.ident,
                pattern: self.optional_pattern(),
                inner: Box::new(inner),
            }
        } else {
            inner
        }
    }
}

impl FieldQuoter {
    pub fn new(ident: String, name: String, _type: String) -> (r: FieldQuoter)
        ensures
            r@ == (FieldQuoterV { ident: ident@, name: name@, ty: _type@ }),
    {
        FieldQuoter { ident, name, _type }
    }

    /// Don't put a & in front a pointer since we are going to pass
    /// a reference to the validator
    /// Also just use the ident without if it's optional and will go through
    /// a if let first
    pub fn quote_validator_param(&self) -> (r: Expr)
        ensures
            r.deep_view() == self@.quoted_param(),
    {
        if type_is_option(self._type.as_str()) {
            Expr::Binding(self.ident.clone())
        } else if type_is_ref(self._type.as_str()) || is_number_type(self._type.as_str()) {
            Expr::SelfField(self.ident.clone())
        } else {
            Expr::RefSelfField(self.ident.clone())
        }
    }

    pub fn get_optional_validator_param(&self) -> (r: Pattern)
        ensures
            r.deep_view() == self@.optional_pattern(),
    {
        if type_is_option_ref(self._type.as_str()) || type_is_double_option_ref(
            self._type.as_str(),
        ) || is_number_type(self._type.as_str()) {
            Pattern::ByValue(self.ident.clone())
        } else {
            Pattern::ByRef(self.ident.clone())
        }
    }

    /// Wrap the quoted output of a validation with a if let Some if
    /// the field type is an option
    pub fn wrap_if_option(&self, tokens: Fragment) -> (r: Fragment)
        ensures
            r.deep_view() == self@.wrapped(tokens.deep_view()),
    {
        if type_is_double_option(self._type.as_str()) {
            return Fragment::IfLetSomeSome {
                field: self.ident.clone(),
                pattern: self.get_optional_validator_param(),
                inner: Box::new(tokens),
            };
        } else if type_is_option(self._type.as_str()) {
            return Fragment::IfLetSome {
                field: self.ident.clone(),
                pattern: self.get_optional_validator_param(),
                inner: Box::new(tokens),
            };
        }
        tokens
    }
}

fn clone_expr(e: &Expr) -> (r: Expr)
    ensures
        r.deep_view() == e.deep_view(),
{
    match e {
        Expr::Binding(name) => Expr::Binding(name.clone()),
        Expr::SelfField(name) => Expr::SelfField(name.clone()),
        Expr::RefSelfField(name) => Expr::RefSelfField(name.clone()),
    }
}

/// The error construction shared by every translator.
pub open spec fn spec_quote_error(v: FieldValidationV) -> ErrorTemplateV {
    ErrorTemplateV { code: v.code, message: v.message }
}

/// Quote an actual end-user error creation automatically
fn quote_error(validation: &FieldValidation) -> (r: ErrorTemplate)
    ensures
        r.deep_view() == spec_quote_error(validation.deep_view()),
{
    ErrorTemplate {
        code: validation.code.clone(),
        message: clone_opt_string(&validation.message),
    }
}

/// The diagnostic parameters of a length check: whichever of the three
/// bounds were specified, in order, then the offending value.
pub open spec fn spec_length_params(
    min: Option<u64>,
    max: Option<u64>,
    equal: Option<u64>,
    param: ExprV,
) -> Seq<ParamV> {
    let with_min = match min {
        Some(m) => seq![ParamV { key: ParamKey::Min, value: ParamValueV::UintLit(m) }],
        None => Seq::<ParamV>::empty(),
    };
    let with_max = match max {
        Some(m) => with_min + seq![ParamV { key: ParamKey::Max, value: ParamValueV::UintLit(m) }],
        None => with_min,
    };
    let with_equal = match equal {
        Some(m) => with_max + seq![
            ParamV { key: ParamKey::Equal, value: ParamValueV::UintLit(m) },
        ],
        None => with_max,
    };
    with_equal + seq![ParamV { key: ParamKey::Value, value: ParamValueV::Value(param) }]
}

/// The unwrapped check of a length rule.
pub open spec fn spec_length_check(fq: FieldQuoterV, v: FieldValidationV) -> FragmentV {
    match v.validator {
        ValidatorV::Length { min, max, equal } => FragmentV::Check {
            cond: CondV::LengthFails { min, max, equal, param: fq.quoted_param() },
            error: spec_quote_error(v),
            params: spec_length_params(min, max, equal, fq.quoted_param()),
            field: fq.name,
        },
        _ => FragmentV::Empty,
    }
}

/// The fragment of a length rule.
pub open spec fn spec_quote_length_validation(fq: FieldQuoterV, v: FieldValidationV) -> FragmentV {
    fq.wrapped(spec_length_check(fq, v))
}

pub fn quote_length_validation(field_quoter: &FieldQuoter, validation: &FieldValidation) -> (r:
    Fragment)
    requires
        validation.deep_view().validator is Length,
    ensures
        r.deep_view() == spec_quote_length_validation(field_quoter@, validation.deep_view()),
{
    let validator_param = field_quoter.quote_validator_param();
    match &validation.validator {
        Validator::Length { min, max, equal } => {
            let mut params: Vec<Param> = Vec::new();
            if let Some(m) = min {
                params.push(Param { key: ParamKey::Min, value: ParamValue::UintLit(*m) });
            }
            if let Some(m) = max {
                params.push(Param { key: ParamKey::Max, value: ParamValue::UintLit(*m) });
            }
            if let Some(m) = equal {
                params.push(Param { key: ParamKey::Equal, value: ParamValue::UintLit(*m) });
            }
            params.push(
                Param { key: ParamKey::Value, value: ParamValue::Value(clone_expr(&validator_param)) },
            );
            proof {
                assert(params.deep_view() =~= spec_length_params(
                    *min,
                    *max,
                    *equal,
                    field_quoter@.quoted_param(),
                ));
            }
            let quoted = Fragment::Check {
                cond: Cond::LengthFails {
                    min: *min,
                    max: *max,
                    equal: *equal,
                    param: validator_param,
                },
                error: quote_error(validation),
                params,
                field: field_quoter.name.clone(),
            };
            field_quoter.wrap_if_option(quoted)
        },
        _ => {
            proof {
                assert(false);
            }
            Fragment::Empty
        },
    }
}

/// The unwrapped check of a range rule: both bounds are always present
/// and both are attached, then the offending value.
pub open spec fn spec_range_check(fq: FieldQuoterV, v: FieldValidationV) -> FragmentV {
    match v.validator {
        ValidatorV::Range { min, max } => FragmentV::Check {
            cond: CondV::RangeFails { min, max, param: fq.quoted_param() },
            error: spec_quote_error(v),
            params: seq![
                ParamV { key: ParamKey::Min, value: ParamValueV::IntLit(min) },
                ParamV { key: ParamKey::Max, value: ParamValueV::IntLit(max) },
                ParamV { key: ParamKey::Value, value: ParamValueV::Value(fq.quoted_param()) },
            ],
            field: fq.name,
        },
        _ => FragmentV::Empty,
    }
}

/// The fragment of a range rule.
pub open spec fn spec_quote_range_validation(fq: FieldQuoterV, v: FieldValidationV) -> FragmentV {
    fq.wrapped(spec_range_check(fq, v))
}

pub fn quote_range_validation(field_quoter: &FieldQuoter, validation: &FieldValidation) -> (r:
    Fragment)
    requires
        validation.deep_view().validator is Range,
    ensures
        r.deep_view() == spec_quote_range_validation(field_quoter@, validation.deep_view()),
{
    let quoted_ident = field_quoter.quote_validator_param();
    match &validation.validator {
        Validator::Range { min, max } => {
            let mut params: Vec<Param> = Vec::new();
            params.push(Param { key: ParamKey::Min, value: ParamValue::IntLit(*min) });
            params.push(Param { key: ParamKey::Max, value: ParamValue::IntLit(*max) });
            params.push(
                Param { key: ParamKey::Value, value: ParamValue::Value(clone_expr(&quoted_ident)) },
            );
            proof {
                assert(params.deep_view() =~= seq![
                    ParamV { key: ParamKey::Min, value: ParamValueV::IntLit(*min) },
                    ParamV { key: ParamKey::Max, value: ParamValueV::IntLit(*max) },
                    ParamV {
                        key: ParamKey::Value,
                        value: ParamValueV::Value(field_quoter@.quoted_param()),
                    },
                ]);
            }
            let quoted = Fragment::Check {
                cond: Cond::RangeFails { min: *min, max: *max, param: quoted_ident },
                error: quote_error(validation),
                params,
                field: field_quoter.name.clone(),
            };
            field_quoter.wrap_if_option(quoted)
        },
        _ => {
            proof {
                assert(false);
            }
            Fragment::Empty
        },
    }
}

/// The single diagnostic parameter of a plain predicate check: the
/// offending value.
pub open spec fn spec_value_param(param: ExprV) -> Seq<ParamV> {
    seq![ParamV { key: ParamKey::Value, value: ParamValueV::Value(param) }]
}

/// The fragment of a credit-card rule.
pub open spec fn spec_credit_card_check(fq: FieldQuoterV, v: FieldValidationV) -> FragmentV {
    FragmentV::Check {
        cond: CondV::CreditCardFails { param: fq.quoted_param() },
        error: spec_quote_error(v),
        params: spec_value_param(fq.quoted_param()),
        field: fq.name,
    }
}

pub open spec fn spec_quote_credit_card_validation(fq: FieldQuoterV, v: FieldValidationV) -> FragmentV {
    fq.wrapped(spec_credit_card_check(fq, v))
}

pub fn quote_credit_card_validation(field_quoter: &FieldQuoter, validation: &FieldValidation) -> (r:
    Fragment)
    ensures
        r.deep_view() == spec_quote_credit_card_validation(field_quoter@, validation.deep_view()),
{
    let validator_param = field_quoter.quote_validator_param();
    let mut params: Vec<Param> = Vec::new();
    params.push(Param { key: ParamKey::Value, value: ParamValue::Value(clone_expr(&validator_param)) });
    proof {
        assert(params.deep_view() =~= spec_value_param(field_quoter@.quoted_param()));
    }
    let quoted = Fragment::Check {
        cond: Cond::CreditCardFails { param: validator_param },
        error: quote_error(validation),
        params,
        field: field_quoter.name.clone(),
    };
    field_quoter.wrap_if_option(quoted)
}

/// The fragment of a phone rule.
pub open spec fn spec_phone_check(fq: FieldQuoterV, v: FieldValidationV) -> FragmentV {
    FragmentV::Check {
        cond: CondV::PhoneFails { param: fq.quoted_param() },
        error: spec_quote_error(v),
        params: spec_value_param(fq.quoted_param()),
        field: fq.name,
    }
}

pub open spec fn spec_quote_phone_validation(fq: FieldQuoterV, v: FieldValidationV) -> FragmentV {
    fq.wrapped(spec_phone_check(fq, v))
}

pub fn quote_phone_validation(field_quoter: &FieldQuoter, validation: &FieldValidation) -> (r:
    Fragment)
    ensures
        r.deep_view() == spec_quote_phone_validation(field_quoter@, validation.deep_view()),
{
    let validator_param = field_quoter.quote_validator_param();
    let mut params: Vec<Param> = Vec::new();
    params.push(Param { key: ParamKey::Value, value: ParamValue::Value(clone_expr(&validator_param)) });
    proof {
        assert(params.deep_view() =~= spec_value_param(field_quoter@.quoted_param()));
    }
    let quoted = Fragment::Check {
        cond: Cond::PhoneFails { param: validator_param },
        error: quote_error(validation),
        params,
        field: field_quoter.name.clone(),
    };
    field_quoter.wrap_if_option(quoted)
}

/// The fragment of a url rule.
pub open spec fn spec_url_check(fq: FieldQuoterV, v: FieldValidationV) -> FragmentV {
    FragmentV::Check {
        cond: CondV::UrlFails { param: fq.quoted_param() },
        error: spec_quote_error(v),
        params: spec_value_param(fq.quoted_param()),
        field: fq.name,
    }
}

pub open spec fn spec_quote_url_validation(fq: FieldQuoterV, v: FieldValidationV) -> FragmentV {
    fq.wrapped(spec_url_check(fq, v))
}

pub fn quote_url_validation(field_quoter: &FieldQuoter, validation: &FieldValidation) -> (r:
    Fragment)
    ensures
        r.deep_view() == spec_quote_url_validation(field_quoter@, validation.deep_view()),
{
    let validator_param = field_quoter.quote_validator_param();
    let mut params: Vec<Param> = Vec::new();
    params.push(Param { key: ParamKey::Value, value: ParamValue::Value(clone_expr(&validator_param)) });
    proof {
        assert(params.deep_view() =~= spec_value_param(field_quoter@.quoted_param()));
    }
    let quoted = Fragment::Check {
        cond: Cond::UrlFails { param: validator_param },
        error: quote_error(validation),
        params,
        field: field_quoter.name.clone(),
    };
    field_quoter.wrap_if_option(quoted)
}

/// The fragment of an email rule.
pub open spec fn spec_email_check(fq: FieldQuoterV, v: FieldValidationV) -> FragmentV {
    FragmentV::Check {
        cond: CondV::EmailFails { param: fq.quoted_param() },
        error: spec_quote_error(v),
        params: spec_value_param(fq.quoted_param()),
        field: fq.name,
    }
}

pub open spec fn spec_quote_email_validation(fq: FieldQuoterV, v: FieldValidationV) -> FragmentV {
    fq.wrapped(spec_email_check(fq, v))
}

pub fn quote_email_validation(field_quoter: &FieldQuoter, validation: &FieldValidation) -> (r:
    Fragment)
    ensures
        r.deep_view() == spec_quote_email_validation(field_quoter@, validation.deep_view()),
{
    let validator_param = field_quoter.quote_validator_param();
    let mut params: Vec<Param> = Vec::new();
    params.push(Param { key: ParamKey::Value, value: ParamValue::Value(clone_expr(&validator_param)) });
    proof {
        assert(params.deep_view() =~= spec_value_param(field_quoter@.quoted_param()));
    }
    let quoted = Fragment::Check {
        cond: Cond::EmailFails { param: validator_param },
        error: quote_error(validation),
        params,
        field: field_quoter.name.clone(),
    };
    field_quoter.wrap_if_option(quoted)
}

/// The fragment of a cross-field match rule: both fields are accessed
/// directly through the enclosing structure, and both values are attached
/// under the fixed value and other keys.
pub open spec fn spec_must_match_check(fq: FieldQuoterV, v: FieldValidationV) -> FragmentV {
    match v.validator {
        ValidatorV::MustMatch(other) => FragmentV::Check {
            cond: CondV::MustMatchFails {
                left: ExprV::RefSelfField(fq.ident),
                right: ExprV::RefSelfField(other),
            },
            error: spec_quote_error(v),
            params: seq![
                ParamV {
                    key: ParamKey::Value,
                    value: ParamValueV::Value(ExprV::RefSelfField(fq.ident)),
                },
                ParamV {
                    key: ParamKey::Other,
                    value: ParamValueV::Value(ExprV::RefSelfField(other)),
                },
            ],
            field: fq.name,
        },
        _ => FragmentV::Empty,
    }
}

pub open spec fn spec_quote_must_match_validation(
    fq: FieldQuoterV,
    v: FieldValidationV,
) -> FragmentV {
    fq.wrapped(spec_must_match_check(fq, v))
}

pub fn quote_must_match_validation(field_quoter: &FieldQuoter, validation: &FieldValidation) -> (r:
    Fragment)
    requires
        validation.deep_view().validator is MustMatch,
        validation.deep_view().wf(),
    ensures
        r.deep_view() == spec_quote_must_match_validation(field_quoter@, validation.deep_view()),
{
    match &validation.validator {
        Validator::MustMatch(other) => {
            let mut params: Vec<Param> = Vec::new();
            params.push(
                Param {
                    key: ParamKey::Value,
                    value: ParamValue::Value(Expr::RefSelfField(field_quoter.ident.clone())),
                },
            );
            params.push(
                Param {
                    key: ParamKey::Other,
                    value: ParamValue::Value(Expr::RefSelfField(other.clone())),
                },
            );
            proof {
                assert(params.deep_view() =~= seq![
                    ParamV {
                        key: ParamKey::Value,
                        value: ParamValueV::Value(ExprV::RefSelfField(field_quoter@.ident)),
                    },
                    ParamV {
                        key: ParamKey::Other,
                        value: ParamValueV::Value(ExprV::RefSelfField(other@)),
                    },
                ]);
            }
            let quoted = Fragment::Check {
                cond: Cond::MustMatchFails {
                    left: Expr::RefSelfField(field_quoter.ident.clone()),
                    right: Expr::RefSelfField(other.clone()),
                },
                error: quote_error(validation),
                params,
                field: field_quoter.name.clone(),
            };
            field_quoter.wrap_if_option(quoted)
        },
        _ => {
            proof {
                assert(false);
            }
            Fragment::Empty
        },
    }
}

/// The fragment of a custom rule: a call of the user-named function on
/// the accessed value, with the declared message injected into the
/// returned error on failure.
pub open spec fn spec_custom_check(fq: FieldQuoterV, v: FieldValidationV) -> FragmentV {
    match v.validator {
        ValidatorV::Custom(fun) => FragmentV::CustomCheck {
            function: fun,
            param: fq.quoted_param(),
            message: v.message,
            field: fq.name,
        },
        _ => FragmentV::Empty,
    }
}

pub open spec fn spec_quote_custom_validation(fq: FieldQuoterV, v: FieldValidationV) -> FragmentV {
    fq.wrapped(spec_custom_check(fq, v))
}

pub fn quote_custom_validation(field_quoter: &FieldQuoter, validation: &FieldValidation) -> (r:
    Fragment)
    requires
        validation.deep_view().validator is Custom,
        validation.deep_view().wf(),
    ensures
        r.deep_view() == spec_quote_custom_validation(field_quoter@, validation.deep_view()),
{
    let validator_param = field_quoter.quote_validator_param();
    match &validation.validator {
        Validator::Custom(fun) => {
            let quoted = Fragment::CustomCheck {
                function: fun.clone(),
                param: validator_param,
                message: clone_opt_string(&validation.message),
                field: field_quoter.name.clone(),
            };
            field_quoter.wrap_if_option(quoted)
        },
        _ => {
            proof {
                assert(false);
            }
            Fragment::Empty
        },
    }
}

/// The fragment of a contains rule: the needle literal joins the check
/// and the diagnostic parameters.
pub open spec fn spec_contains_check(fq: FieldQuoterV, v: FieldValidationV) -> FragmentV {
    match v.validator {
        ValidatorV::Contains(needle) => FragmentV::Check {
            cond: CondV::ContainsFails { param: fq.quoted_param(), needle },
            error: spec_quote_error(v),
            params: seq![
                ParamV { key: ParamKey::Value, value: ParamValueV::Value(fq.quoted_param()) },
                ParamV { key: ParamKey::Needle, value: ParamValueV::StrLit(needle) },
            ],
            field: fq.name,
        },
        _ => FragmentV::Empty,
    }
}

pub open spec fn spec_quote_contains_validation(fq: FieldQuoterV, v: FieldValidationV) -> FragmentV {
    fq.wrapped(spec_contains_check(fq, v))
}

pub fn quote_contains_validation(field_quoter: &FieldQuoter, validation: &FieldValidation) -> (r:
    Fragment)
    requires
        validation.deep_view().validator is Contains,
    ensures
        r.deep_view() == spec_quote_contains_validation(field_quoter@, validation.deep_view()),
{
    let validator_param = field_quoter.quote_validator_param();
    match &validation.validator {
        Validator::Contains(needle) => {
            let mut params: Vec<Param> = Vec::new();
            params.push(
                Param {
                    key: ParamKey::Value,
                    value: ParamValue::Value(clone_expr(&validator_param)),
                },
            );
            params.push(Param { key: ParamKey::Needle, value: ParamValue::StrLit(needle.clone()) });
            proof {
                assert(params.deep_view() =~= seq![
                    ParamV {
                        key: ParamKey::Value,
                        value: ParamValueV::Value(field_quoter@.quoted_param()),
                    },
                    ParamV { key: ParamKey::Needle, value: ParamValueV::StrLit(needle@) },
                ]);
            }
            let quoted = Fragment::Check {
                cond: Cond::ContainsFails { param: validator_param, needle: needle.clone() },
                error: quote_error(validation),
                params,
                field: field_quoter.name.clone(),
            };
            field_quoter.wrap_if_option(quoted)
        },
        _ => {
            proof {
                assert(false);
            }
            Fragment::Empty
        },
    }
}

/// The fragment of a regex rule: the named pattern is looked up and
/// matched against the accessed value; only the value is attached.
pub open spec fn spec_regex_check(fq: FieldQuoterV, v: FieldValidationV) -> FragmentV {
    match v.validator {
        ValidatorV::Regex(pattern) => FragmentV::Check {
            cond: CondV::RegexFails { pattern, param: fq.quoted_param() },
            error: spec_quote_error(v),
            params: spec_value_param(fq.quoted_param()),
            field: fq.name,
        },
        _ => FragmentV::Empty,
    }
}

pub open spec fn spec_quote_regex_validation(fq: FieldQuoterV, v: FieldValidationV) -> FragmentV {
    fq.wrapped(spec_regex_check(fq, v))
}

pub fn quote_regex_validation(field_quoter: &FieldQuoter, validation: &FieldValidation) -> (r:
    Fragment)
    requires
        validation.deep_view().validator is Regex,
        validation.deep_view().wf(),
    ensures
        r.deep_view() == spec_quote_regex_validation(field_quoter@, validation.deep_view()),
{
    let validator_param = field_quoter.quote_validator_param();
    match &validation.validator {
        Validator::Regex(pattern) => {
            let mut params: Vec<Param> = Vec::new();
            params.push(
                Param {
                    key: ParamKey::Value,
                    value: ParamValue::Value(clone_expr(&validator_param)),
                },
            );
            proof {
                assert(params.deep_view() =~= spec_value_param(field_quoter@.quoted_param()));
            }
            let quoted = Fragment::Check {
                cond: Cond::RegexFails { pattern: pattern.clone(), param: validator_param },
                error: quote_error(validation),
                params,
                field: field_quoter.name.clone(),
            };
            field_quoter.wrap_if_option(quoted)
        },
        _ => {
            proof {
                assert(false);
            }
            Fragment::Empty
        },
    }
}

/// The unwrapped check of a rule, before the optional-layer nesting: every
/// translator builds its check and passes it through the field's wrap.
pub open spec fn spec_field_check(fq: FieldQuoterV, v: FieldValidationV) -> FragmentV {
    match v.validator {
        ValidatorV::Length { .. } => spec_length_check(fq, v),
        ValidatorV::Range { .. } => spec_range_check(fq, v),
        ValidatorV::Email => spec_email_check(fq, v),
        ValidatorV::Url => spec_url_check(fq, v),
        ValidatorV::MustMatch(_) => spec_must_match_check(fq, v),
        ValidatorV::Custom(_) => spec_custom_check(fq, v),
        ValidatorV::Contains(_) => spec_contains_check(fq, v),
        ValidatorV::Regex(_) => spec_regex_check(fq, v),
        ValidatorV::CreditCard => spec_credit_card_check(fq, v),
        ValidatorV::Phone => spec_phone_check(fq, v),
    }
}

/// The dispatch over the closed catalogue: one fragment per (field, rule)
/// pair.
pub open spec fn spec_quote_field_validation(fq: FieldQuoterV, v: FieldValidationV) -> FragmentV {
    match v.validator {
        ValidatorV::Length { .. } => spec_quote_length_validation(fq, v),
        ValidatorV::Range { .. } => spec_quote_range_validation(fq, v),
        ValidatorV::Email => spec_quote_email_validation(fq, v),
        ValidatorV::Url => spec_quote_url_validation(fq, v),
        ValidatorV::MustMatch(_) => spec_quote_must_match_validation(fq, v),
        ValidatorV::Custom(_) => spec_quote_custom_validation(fq, v),
        ValidatorV::Contains(_) => spec_quote_contains_validation(fq, v),
        ValidatorV::Regex(_) => spec_quote_regex_validation(fq, v),
        ValidatorV::CreditCard => spec_quote_credit_card_validation(fq, v),
        ValidatorV::Phone => spec_quote_phone_validation(fq, v),
    }
}

pub fn quote_field_validation(field_quoter: &FieldQuoter, validation: &FieldValidation) -> (r:
    Fragment)
    requires
        validation.deep_view().wf(),
    ensures
        r.deep_view() == spec_quote_field_validation(field_quoter@, validation.deep_view()),
{
    match &validation.validator {
        Validator::Length { .. } => quote_length_validation(field_quoter, validation),
        Validator::Range { .. } => quote_range_validation(field_quoter, validation),
        Validator::Email => quote_email_validation(field_quoter, validation),
        Validator::Url => quote_url_validation(field_quoter, validation),
        Validator::MustMatch(_) => quote_must_match_validation(field_quoter, validation),
        Validator::Custom(_) => quote_custom_validation(field_quoter, validation),
        Validator::Contains(_) => quote_contains_validation(field_quoter, validation),
        Validator::Regex(_) => quote_regex_validation(field_quoter, validation),
        Validator::CreditCard => quote_credit_card_validation(field_quoter, validation),
        Validator::Phone => quote_phone_validation(field_quoter, validation),
    }
}

/// The whole-structure fragment: nothing when no rule was declared; the
/// call of the validating function, guarded by emptiness of the error
/// collection when the rule skips on field errors.
pub open spec fn spec_quote_schema_validation(v: Option<SchemaValidationV>) -> FragmentV {
    match v {
        Some(sv) => {
            let check = FragmentV::SchemaCheck { function: sv.function, message: sv.message };
            if sv.skip_on_field_errors {
                FragmentV::IfNoErrors { inner: Box::new(check) }
            } else {
                check
            }
        },
        None => FragmentV::Empty,
    }
}

pub fn quote_schema_validation(validation: Option<SchemaValidation>) -> (r: Fragment)
    ensures
        r.deep_view() == spec_quote_schema_validation(validation.deep_view()),
{
    match validation {
        Some(v) => {
            let ghost sv = v.deep_view();
            let skip = v.skip_on_field_errors;
            let check = Fragment::SchemaCheck { function: v.function, message: v.message };
            proof {
                assert(check.deep_view() == (FragmentV::SchemaCheck {
                    function: sv.function,
                    message: sv.message,
                }));
            }
            if !skip {
                return check;
            }
            Fragment::IfNoErrors { inner: Box::new(check) }
        },
        None => Fragment::Empty,
    }
}

/// The assembled procedure: all per-field fragments in declaration order,
/// then the whole-structure fragment last, so that its skip-on-field-errors
/// guard sees every field error already recorded.
pub fn assemble_validation(field_fragments: Vec<Fragment>, schema: Option<SchemaValidation>) -> (r:
    ValidationBody)
    ensures
        r.deep_view() == field_fragments.deep_view().push(
            spec_quote_schema_validation(schema.deep_view()),
        ),
{
    let ghost orig = field_fragments.deep_view();
    let ghost schema_v = schema.deep_view();
    let schema_fragment = quote_schema_validation(schema);
    let mut parts = field_fragments;
    parts.push(schema_fragment);
    proof {
        assert(parts.deep_view() =~= orig.push(spec_quote_schema_validation(schema_v)));
    }
    ValidationBody { parts }
}

} // verus!
