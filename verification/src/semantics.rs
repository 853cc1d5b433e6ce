//! The meaning of fragments. A runtime environment fixes the record's
//! field values and the verdicts of the opaque runtime predicates (the
//! email, url, credit-card, phone, regex and contains checks, and the
//! results of the user's custom and whole-structure functions, which the
//! generator only ever calls by contract). Against such an environment, a
//! fragment evaluates to the error entries it appends, in order, and to
//! the number of times the whole-structure function is invoked. The
//! evaluation is given both as a specification and as an executable
//! interpreter proved equal to it; the generator's laws are stated over
//! the specification.

use vstd::prelude::*;
use crate::fragment::{CondV, ExprV, FragmentV, ParamKey, ParamV, ParamValueV};

verus! {

/// A runtime value: a number, a text, or an optional layer (present or
/// absent) over another value.
#[derive(Debug, PartialEq, Eq)]
pub enum RtVal {
    Int(i64),
    Text(String),
    Nothing,
    Filled(Box<RtVal>),
}

/// Spec-level form of [`RtVal`].
pub enum RtValV {
    Int(i64),
    Text(Seq<char>),
    Nothing,
    Filled(Box<RtValV>),
}

/// The recursive translation of a runtime value to its spec-level form.
pub open spec fn rt_val_view(v: RtVal) -> RtValV
    decreases v,
{
    match v {
        RtVal::Int(n) => RtValV::Int(n),
        RtVal::Text(s) => RtValV::Text(s@),
        RtVal::Nothing => RtValV::Nothing,
        RtVal::Filled(inner) => RtValV::Filled(Box::new(rt_val_view(*inner))),
    }
}

impl DeepView for RtVal {
    type V = RtValV;

    open spec fn deep_view(&self) -> RtValV {
        rt_val_view(*self)
    }
}

/// One diagnostic parameter value as recorded in an error: a literal
/// carried over from the rule, or an evaluated runtime value.
#[derive(Debug, PartialEq, Eq)]
pub enum RtParam {
    Uint(u64),
    Int(i64),
    Text(String),
    Val(RtVal),
}

/// Spec-level form of [`RtParam`].
pub enum RtParamV {
    Uint(u64),
    Int(i64),
    Text(Seq<char>),
    Val(RtValV),
}

impl DeepView for RtParam {
    type V = RtParamV;

    open spec fn deep_view(&self) -> RtParamV {
        match self {
            RtParam::Uint(n) => RtParamV::Uint(*n),
            RtParam::Int(n) => RtParamV::Int(*n),
            RtParam::Text(s) => RtParamV::Text(s@),
            RtParam::Val(v) => RtParamV::Val(v.deep_view()),
        }
    }
}

/// One keyed diagnostic parameter attached to an error.
#[derive(Debug, PartialEq, Eq)]
pub struct ErrParam {
    pub key: ParamKey,
    pub value: RtParam,
}

/// Spec-level form of [`ErrParam`].
pub struct ErrParamV {
    pub key: ParamKey,
    pub value: RtParamV,
}

impl DeepView for ErrParam {
    type V = ErrParamV;

    open spec fn deep_view(&self) -> ErrParamV {
        ErrParamV { key: self.key, value: self.value.deep_view() }
    }
}

/// A structured validation error: a code, an optional message, and the
/// attached diagnostic parameters in attachment order.
#[derive(Debug, PartialEq, Eq)]
pub struct RtError {
    pub code: String,
    pub message: Option<String>,
    pub params: Vec<ErrParam>,
}

/// Spec-level form of [`RtError`].
pub struct RtErrorV {
    pub code: Seq<char>,
    pub message: Option<Seq<char>>,
    pub params: Seq<ErrParamV>,
}

impl DeepView for RtError {
    type V = RtErrorV;

    open spec fn deep_view(&self) -> RtErrorV {
        RtErrorV {
            code: self.code@,
            message: self.message.deep_view(),
            params: self.params.deep_view(),
        }
    }
}

/// The key under which an error is recorded: a field's declared name, or
/// the reserved whole-structure key, distinct from every field name.
#[derive(Debug, PartialEq, Eq)]
pub enum ErrKey {
    Field(String),
    Whole,
}

/// Spec-level form of [`ErrKey`].
pub enum ErrKeyV {
    Field(Seq<char>),
    Whole,
}

impl DeepView for ErrKey {
    type V = ErrKeyV;

    open spec fn deep_view(&self) -> ErrKeyV {
        match self {
            ErrKey::Field(name) => ErrKeyV::Field(name@),
            ErrKey::Whole => ErrKeyV::Whole,
        }
    }
}

/// One entry of the error collection.
#[derive(Debug, PartialEq, Eq)]
pub struct ErrEntry {
    pub key: ErrKey,
    pub error: RtError,
}

/// Spec-level form of [`ErrEntry`].
pub struct ErrEntryV {
    pub key: ErrKeyV,
    pub error: RtErrorV,
}

impl DeepView for ErrEntry {
    type V = ErrEntryV;

    open spec fn deep_view(&self) -> ErrEntryV {
        ErrEntryV { key: self.key.deep_view(), error: self.error.deep_view() }
    }
}

/// One field of the record under validation, with its runtime value
/// (optional layers included).
#[derive(Debug, PartialEq, Eq)]
pub struct FieldEntry {
    pub name: String,
    pub value: RtVal,
}

/// Spec-level form of [`FieldEntry`].
pub struct FieldEntryV {
    pub name: Seq<char>,
    pub value: RtValV,
}

impl DeepView for FieldEntry {
    type V = FieldEntryV;

    open spec fn deep_view(&self) -> FieldEntryV {
        FieldEntryV { name: self.name@, value: self.value.deep_view() }
    }
}

/// The runtime environment a fragment is evaluated against: the record's
/// fields, the verdicts of the opaque runtime predicates, and the results
/// of the user's custom and whole-structure functions (the error each
/// returns on failure, or nothing on success).
#[derive(Debug, PartialEq, Eq)]
pub struct Env {
    pub fields: Vec<FieldEntry>,
    pub email_ok: bool,
    pub url_ok: bool,
    pub credit_card_ok: bool,
    pub phone_ok: bool,
    pub regex_ok: bool,
    pub contains_ok: bool,
    pub custom_result: Option<RtError>,
    pub schema_result: Option<RtError>,
}

/// Spec-level form of [`Env`].
pub struct EnvV {
    pub fields: Seq<FieldEntryV>,
    pub email_ok: bool,
    pub url_ok: bool,
    pub credit_card_ok: bool,
    pub phone_ok: bool,
    pub regex_ok: bool,
    pub contains_ok: bool,
    pub custom_result: Option<RtErrorV>,
    pub schema_result: Option<RtErrorV>,
}

impl DeepView for Env {
    type V = EnvV;

    open spec fn deep_view(&self) -> EnvV {
        EnvV {
            fields: self.fields.deep_view(),
            email_ok: self.email_ok,
            url_ok: self.url_ok,
            credit_card_ok: self.credit_card_ok,
            phone_ok: self.phone_ok,
            regex_ok: self.regex_ok,
            contains_ok: self.contains_ok,
            custom_result: self.custom_result.deep_view(),
            schema_result: self.schema_result.deep_view(),
        }
    }
}

/// The value of the first field with the given name; absent fields read
/// as nothing.
pub open spec fn lookup_field(fields: Seq<FieldEntryV>, name: Seq<char>) -> RtValV
    decreases fields.len(),
{
    if fields.len() == 0 {
        RtValV::Nothing
    } else if fields[0].name == name {
        fields[0].value
    } else {
        lookup_field(fields.drop_first(), name)
    }
}

/// The runtime value an access expression denotes: a bare binding denotes
/// the value bound by the nearest enclosing optional-unwrap guard, and a
/// field access denotes the field's own value.
pub open spec fn eval_expr(e: ExprV, env: EnvV, bound: Option<RtValV>) -> RtValV {
    match e {
        ExprV::Binding(_) => match bound {
            Some(v) => v,
            None => RtValV::Nothing,
        },
        ExprV::SelfField(f) => lookup_field(env.fields, f),
        ExprV::RefSelfField(f) => lookup_field(env.fields, f),
    }
}

/// The length a value exposes to the length check: texts have their
/// character count; other values have none.
pub open spec fn length_of(v: RtValV) -> Option<nat> {
    match v {
        RtValV::Text(s) => Some(s.len()),
        _ => None,
    }
}

/// The runtime length predicate: an exact bound dominates; an absent
/// bound is no constraint; values without a length pass.
pub open spec fn length_check_passes(
    min: Option<u64>,
    max: Option<u64>,
    equal: Option<u64>,
    v: RtValV,
) -> bool {
    match length_of(v) {
        Some(l) => match equal {
            Some(e) => l == e,
            None => (match min {
                Some(m) => l >= m,
                None => true,
            }) && (match max {
                Some(m) => l <= m,
                None => true,
            }),
        },
        None => true,
    }
}

/// The runtime range predicate, modelled as an exact comparison on the
/// numeric value (the emitted code compares after a coercion to a 64-bit
/// floating-point representation; the model abstracts that coercion).
pub open spec fn range_check_passes(min: i64, max: i64, v: RtValV) -> bool {
    match v {
        RtValV::Int(i) => min <= i && i <= max,
        _ => true,
    }
}

/// Whether a check's condition holds, that is, whether its predicate
/// fails and the error branch runs. Length, range and cross-field match
/// have intrinsic meaning; the remaining predicates belong to the runtime
/// library and take their verdicts from the environment.
pub open spec fn cond_fails(c: CondV, env: EnvV, bound: Option<RtValV>) -> bool {
    match c {
        CondV::LengthFails { min, max, equal, param } => !length_check_passes(
            min,
            max,
            equal,
            eval_expr(param, env, bound),
        ),
        CondV::RangeFails { min, max, param } => !range_check_passes(
            min,
            max,
            eval_expr(param, env, bound),
        ),
        CondV::EmailFails { .. } => !env.email_ok,
        CondV::UrlFails { .. } => !env.url_ok,
        CondV::CreditCardFails { .. } => !env.credit_card_ok,
        CondV::PhoneFails { .. } => !env.phone_ok,
        CondV::ContainsFails { .. } => !env.contains_ok,
        CondV::RegexFails { .. } => !env.regex_ok,
        CondV::MustMatchFails { left, right } => eval_expr(left, env, bound) != eval_expr(
            right,
            env,
            bound,
        ),
    }
}

/// The recorded form of one diagnostic parameter: literals carry over,
/// expressions evaluate.
pub open spec fn eval_param(p: ParamV, env: EnvV, bound: Option<RtValV>) -> ErrParamV {
    ErrParamV {
        key: p.key,
        value: match p.value {
            ParamValueV::UintLit(n) => RtParamV::Uint(n),
            ParamValueV::IntLit(n) => RtParamV::Int(n),
            ParamValueV::StrLit(s) => RtParamV::Text(s),
            ParamValueV::Value(e) => RtParamV::Val(eval_expr(e, env, bound)),
        },
    }
}

/// The recorded forms of a fragment's diagnostic parameters, in order.
pub open spec fn eval_params_all(
    params: Seq<ParamV>,
    env: EnvV,
    bound: Option<RtValV>,
) -> Seq<ErrParamV> {
    params.map_values(|p: ParamV| eval_param(p, env, bound))
}

/// What evaluating a fragment yields: the error collection afterwards and
/// how many times the whole-structure function was invoked.
pub struct Outcome {
    pub errors: Seq<ErrEntryV>,
    pub schema_calls: nat,
}

/// The evaluation of one fragment: guards skip their inner fragment when
/// an optional layer is absent or (for the emptiness guard) when errors
/// have already been recorded; checks append one error entry exactly when
/// their predicate fails.
pub open spec fn spec_eval(
    f: FragmentV,
    env: EnvV,
    bound: Option<RtValV>,
    errors: Seq<ErrEntryV>,
) -> Outcome
    decreases f,
{
    match f {
        FragmentV::Empty => Outcome { errors, schema_calls: 0 },
        FragmentV::Check { cond, error, params, field } => if cond_fails(cond, env, bound) {
            let err = RtErrorV {
                code: error.code,
                message: error.message,
                params: eval_params_all(params, env, bound),
            };
            Outcome {
                errors: errors.push(ErrEntryV { key: ErrKeyV::Field(field), error: err }),
                schema_calls: 0,
            }
        } else {
            Outcome { errors, schema_calls: 0 }
        },
        FragmentV::CustomCheck { function, param, message, field } => match env.custom_result {
            Some(e) => {
                let err = RtErrorV {
                    code: e.code,
                    message: if message is Some {
                        message
                    } else {
                        e.message
                    },
                    params: e.params.push(
                        ErrParamV {
                            key: ParamKey::Value,
                            value: RtParamV::Val(eval_expr(param, env, bound)),
                        },
                    ),
                };
                Outcome {
                    errors: errors.push(ErrEntryV { key: ErrKeyV::Field(field), error: err }),
                    schema_calls: 0,
                }
            },
            None => Outcome { errors, schema_calls: 0 },
        },
        FragmentV::SchemaCheck { function, message } => match env.schema_result {
            Some(e) => {
                let err = RtErrorV {
                    code: e.code,
                    message: if message is Some {
                        message
                    } else {
                        e.message
                    },
                    params: e.params,
                };
                Outcome {
                    errors: errors.push(ErrEntryV { key: ErrKeyV::Whole, error: err }),
                    schema_calls: 1,
                }
            },
            None => Outcome { errors, schema_calls: 1 },
        },
        FragmentV::IfLetSome { field, pattern, inner } => match lookup_field(env.fields, field) {
            RtValV::Filled(v) => spec_eval(*inner, env, Some(*v), errors),
            _ => Outcome { errors, schema_calls: 0 },
        },
        FragmentV::IfLetSomeSome { field, pattern, inner } => match lookup_field(
            env.fields,
            field,
        ) {
            RtValV::Filled(v) => match *v {
                RtValV::Filled(w) => spec_eval(*inner, env, Some(*w), errors),
                _ => Outcome { errors, schema_calls: 0 },
            },
            _ => Outcome { errors, schema_calls: 0 },
        },
        FragmentV::IfNoErrors { inner } => if errors.len() == 0 {
            spec_eval(*inner, env, bound, errors)
        } else {
            Outcome { errors, schema_calls: 0 }
        },
    }
}

/// The evaluation of an assembled procedure: each part in order, no
/// binding in scope at the top level, threading the error collection
/// through and summing the whole-structure invocations.
pub open spec fn spec_eval_parts(parts: Seq<FragmentV>, env: EnvV, errors: Seq<ErrEntryV>) -> Outcome
    decreases parts.len(),
{
    if parts.len() == 0 {
        Outcome { errors, schema_calls: 0 }
    } else {
        let first = spec_eval(parts[0], env, None, errors);
        let rest = spec_eval_parts(parts.drop_first(), env, first.errors);
        Outcome { errors: rest.errors, schema_calls: first.schema_calls + rest.schema_calls }
    }
}

} // verus!
