//! The behavioural laws of the generator, stated over the evaluation
//! semantics and proved from what the translators' contracts pin down.

use vstd::prelude::*;
use crate::fragment::{CondV, FragmentV, ParamKey, ParamV, ParamValueV};
use crate::quoting::{
    spec_field_check, spec_length_check, spec_quote_error, spec_quote_field_validation,
    spec_quote_schema_validation, FieldQuoterV,
};
use crate::rules::{FieldValidationV, SchemaValidationV, ValidatorV};
use crate::semantics::{
    eval_expr, lookup_field, spec_eval, spec_eval_parts, EnvV, ErrEntryV, ErrKeyV, ErrParamV,
    Outcome, RtErrorV, RtParamV, RtValV,
};
use crate::shape::{is_double_option_type, is_option_type};

verus! {

/// Every rule's generated fragment is its unwrapped check nested under
/// the field's optional layers.
pub proof fn lemma_field_fragment_wrapped(fq: FieldQuoterV, v: FieldValidationV)
    ensures
        spec_quote_field_validation(fq, v) == fq.wrapped(spec_field_check(fq, v)),
{
}

/// For a field of single-layer optional type shape, the generated check
/// of any rule runs exactly when the field is present at runtime, on the
/// unwrapped value; absence produces zero errors for that rule.
pub proof fn lemma_optional_field_guard(
    fq: FieldQuoterV,
    v: FieldValidationV,
    env: EnvV,
    bound: Option<RtValV>,
    errors: Seq<ErrEntryV>,
)
    requires
        is_option_type(fq.ty),
        !is_double_option_type(fq.ty),
    ensures
        lookup_field(env.fields, fq.ident) matches RtValV::Filled(w) ==> spec_eval(
            spec_quote_field_validation(fq, v),
            env,
            bound,
            errors,
        ) == spec_eval(spec_field_check(fq, v), env, Some(*w), errors),
        !(lookup_field(env.fields, fq.ident) is Filled) ==> spec_eval(
            spec_quote_field_validation(fq, v),
            env,
            bound,
            errors,
        ) == (Outcome { errors, schema_calls: 0 }),
{
}

/// For a field of optional-of-optional type shape, the generated check
/// runs exactly when both layers are present, on the doubly unwrapped
/// value; absence at either layer produces zero errors.
pub proof fn lemma_double_optional_field_guard(
    fq: FieldQuoterV,
    v: FieldValidationV,
    env: EnvV,
    bound: Option<RtValV>,
    errors: Seq<ErrEntryV>,
)
    requires
        is_double_option_type(fq.ty),
    ensures
        lookup_field(env.fields, fq.ident) matches RtValV::Filled(w) ==> ((*w
            matches RtValV::Filled(u) ==> spec_eval(
            spec_quote_field_validation(fq, v),
            env,
            bound,
            errors,
        ) == spec_eval(spec_field_check(fq, v), env, Some(*u), errors)) && (!(*w is Filled)
            ==> spec_eval(spec_quote_field_validation(fq, v), env, bound, errors) == (Outcome {
            errors,
            schema_calls: 0,
        }))),
        !(lookup_field(env.fields, fq.ident) is Filled) ==> spec_eval(
            spec_quote_field_validation(fq, v),
            env,
            bound,
            errors,
        ) == (Outcome { errors, schema_calls: 0 }),
{
}

/// A length rule with only a lower bound attaches exactly that bound and
/// the offending value as diagnostic parameters: neither an upper nor an
/// exact bound appears.
pub proof fn lemma_length_min_only_params(fq: FieldQuoterV, v: FieldValidationV, m: u64)
    requires
        v.validator == (ValidatorV::Length { min: Some(m), max: None, equal: None }),
    ensures
        spec_length_check(fq, v) == (FragmentV::Check {
            cond: CondV::LengthFails {
                min: Some(m),
                max: None,
                equal: None,
                param: fq.quoted_param(),
            },
            error: spec_quote_error(v),
            params: seq![
                ParamV { key: ParamKey::Min, value: ParamValueV::UintLit(m) },
                ParamV { key: ParamKey::Value, value: ParamValueV::Value(fq.quoted_param()) },
            ],
            field: fq.name,
        }),
{
    assert(crate::quoting::spec_length_params(Some(m), None, None, fq.quoted_param()) =~= seq![
        ParamV { key: ParamKey::Min, value: ParamValueV::UintLit(m) },
        ParamV { key: ParamKey::Value, value: ParamValueV::Value(fq.quoted_param()) },
    ]);
}

/// Under a length rule with only a lower bound, any text whose length is
/// at or above that bound passes: there is no upper bound to violate, so
/// the check appends no error.
pub proof fn lemma_length_min_only_passes(
    fq: FieldQuoterV,
    v: FieldValidationV,
    m: u64,
    env: EnvV,
    bound: Option<RtValV>,
    errors: Seq<ErrEntryV>,
)
    requires
        v.validator == (ValidatorV::Length { min: Some(m), max: None, equal: None }),
        eval_expr(fq.quoted_param(), env, bound) matches RtValV::Text(txt) && txt.len() >= m,
    ensures
        spec_eval(spec_length_check(fq, v), env, bound, errors) == (Outcome {
            errors,
            schema_calls: 0,
        }),
{
}

/// A cross-field match on a plainly typed field: equal values produce
/// zero errors; unequal values produce exactly one error, recorded under
/// the field's declared name, carrying both values under the fixed value
/// and other keys.
pub proof fn lemma_must_match(
    fq: FieldQuoterV,
    v: FieldValidationV,
    other: Seq<char>,
    env: EnvV,
    bound: Option<RtValV>,
    errors: Seq<ErrEntryV>,
)
    requires
        v.validator == ValidatorV::MustMatch(other),
        !is_option_type(fq.ty),
    ensures
        ({
            let va = lookup_field(env.fields, fq.ident);
            let vb = lookup_field(env.fields, other);
            let res = spec_eval(spec_quote_field_validation(fq, v), env, bound, errors);
            &&& (va == vb ==> res == (Outcome { errors, schema_calls: 0 }))
            &&& (va != vb ==> res.errors == errors.push(
                ErrEntryV {
                    key: ErrKeyV::Field(fq.name),
                    error: RtErrorV {
                        code: v.code,
                        message: v.message,
                        params: seq![
                            ErrParamV { key: ParamKey::Value, value: RtParamV::Val(va) },
                            ErrParamV { key: ParamKey::Other, value: RtParamV::Val(vb) },
                        ],
                    },
                },
            ) && res.schema_calls == 0)
        }),
{
    let va = lookup_field(env.fields, fq.ident);
    let vb = lookup_field(env.fields, other);
    let check = spec_field_check(fq, v);
    if is_double_option_type(fq.ty) {
        crate::shape::lemma_double_option_is_option(fq.ty);
    }
    assert(spec_quote_field_validation(fq, v) == check);
    if va != vb {
        assert(crate::semantics::eval_params_all(
            seq![
                ParamV {
                    key: ParamKey::Value,
                    value: ParamValueV::Value(crate::fragment::ExprV::RefSelfField(fq.ident)),
                },
                ParamV {
                    key: ParamKey::Other,
                    value: ParamValueV::Value(crate::fragment::ExprV::RefSelfField(other)),
                },
            ],
            env,
            bound,
        ) =~= seq![
            ErrParamV { key: ParamKey::Value, value: RtParamV::Val(va) },
            ErrParamV { key: ParamKey::Other, value: RtParamV::Val(vb) },
        ]);
    }
}

/// A fragment that is a plain or custom check, or nothing, never invokes
/// the whole-structure function.
pub proof fn lemma_check_no_schema_calls(
    f: FragmentV,
    env: EnvV,
    bound: Option<RtValV>,
    errors: Seq<ErrEntryV>,
)
    requires
        f is Check || f is CustomCheck || f is Empty,
    ensures
        spec_eval(f, env, bound, errors).schema_calls == 0,
{
}

/// No per-field rule fragment ever invokes the whole-structure function:
/// only the whole-structure fragment does.
pub proof fn lemma_field_fragment_no_schema_calls(
    fq: FieldQuoterV,
    v: FieldValidationV,
    env: EnvV,
    bound: Option<RtValV>,
    errors: Seq<ErrEntryV>,
)
    ensures
        spec_eval(spec_quote_field_validation(fq, v), env, bound, errors).schema_calls == 0,
{
    let check = spec_field_check(fq, v);
    assert(check is Check || check is CustomCheck || check is Empty);
    if is_double_option_type(fq.ty) {
        match lookup_field(env.fields, fq.ident) {
            RtValV::Filled(b) => match *b {
                RtValV::Filled(u) => {
                    lemma_check_no_schema_calls(check, env, Some(*u), errors);
                },
                _ => {},
            },
            _ => {},
        }
    } else if is_option_type(fq.ty) {
        match lookup_field(env.fields, fq.ident) {
            RtValV::Filled(b) => {
                lemma_check_no_schema_calls(check, env, Some(*b), errors);
            },
            _ => {},
        }
    } else {
        lemma_check_no_schema_calls(check, env, bound, errors);
    }
}

/// The order law of the assembled procedure, for a whole-structure rule
/// marked skip-on-field-errors, placed after two per-field fragments
/// that never call the whole-structure function themselves: if the first
/// fragment records an error and the second records none, the
/// whole-structure function is never invoked; if both record none, it is
/// invoked exactly once.
pub proof fn lemma_skip_on_field_errors(fx: FragmentV, fy: FragmentV, sv: SchemaValidationV, env: EnvV)
    requires
        sv.skip_on_field_errors,
        spec_eval(fx, env, None, Seq::<ErrEntryV>::empty()).schema_calls == 0,
        spec_eval(
            fy,
            env,
            None,
            spec_eval(fx, env, None, Seq::<ErrEntryV>::empty()).errors,
        ).schema_calls == 0,
    ensures
        ({
            let ex = spec_eval(fx, env, None, Seq::<ErrEntryV>::empty()).errors;
            let ey = spec_eval(fy, env, None, ex).errors;
            let total = spec_eval_parts(
                seq![fx, fy, spec_quote_schema_validation(Some(sv))],
                env,
                Seq::<ErrEntryV>::empty(),
            );
            &&& (ex.len() > 0 && ey == ex ==> total.schema_calls == 0)
            &&& (ex.len() == 0 && ey.len() == 0 ==> total.schema_calls == 1)
        }),
{
    let schema = spec_quote_schema_validation(Some(sv));
    let parts = seq![fx, fy, schema];
    let empty = Seq::<ErrEntryV>::empty();
    let o1 = spec_eval(fx, env, None, empty);
    let o2 = spec_eval(fy, env, None, o1.errors);
    let o3 = spec_eval(schema, env, None, o2.errors);
    assert(parts[0] == fx);
    assert(parts.drop_first() =~= seq![fy, schema]);
    assert(seq![fy, schema][0] == fy);
    assert(seq![fy, schema].drop_first() =~= seq![schema]);
    assert(seq![schema][0] == schema);
    assert(seq![schema].drop_first() =~= Seq::<FragmentV>::empty());
    assert(spec_eval_parts(Seq::<FragmentV>::empty(), env, o3.errors).schema_calls == 0);
    assert(spec_eval_parts(seq![schema], env, o2.errors).schema_calls == o3.schema_calls);
    assert(spec_eval_parts(seq![fy, schema], env, o1.errors).schema_calls == o2.schema_calls
        + o3.schema_calls);
    assert(spec_eval_parts(parts, env, empty).schema_calls == o1.schema_calls + o2.schema_calls
        + o3.schema_calls);
    assert(schema == (FragmentV::IfNoErrors {
        inner: Box::new(FragmentV::SchemaCheck { function: sv.function, message: sv.message }),
    }));
    if o2.errors.len() > 0 {
        assert(o3.schema_calls == 0);
    }
    if o2.errors.len() == 0 {
        let inner = FragmentV::SchemaCheck { function: sv.function, message: sv.message };
        assert(o3 == spec_eval(inner, env, None, o2.errors));
        assert(spec_eval(inner, env, None, o2.errors).schema_calls == 1);
    }
}

/// Generation is a pure function of the rule descriptions: identical
/// inputs yield structurally identical fragments, both per field rule and
/// for the whole-structure rule, so generating twice from the same input
/// cannot differ.
pub proof fn lemma_generation_deterministic(
    fq1: FieldQuoterV,
    fq2: FieldQuoterV,
    v1: FieldValidationV,
    v2: FieldValidationV,
    s1: Option<SchemaValidationV>,
    s2: Option<SchemaValidationV>,
)
    requires
        fq1 == fq2,
        v1 == v2,
        s1 == s2,
    ensures
        spec_quote_field_validation(fq1, v1) == spec_quote_field_validation(fq2, v2),
        spec_quote_schema_validation(s1) == spec_quote_schema_validation(s2),
{
}

} // verus!
