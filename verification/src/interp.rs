//! The executable interpreter of fragments, proved equal to the
//! specification-level evaluation in `semantics`. It exists so that a
//! generated procedure can be exercised on concrete records and
//! environments exactly as the semantics describes it.

use vstd::prelude::*;
use vstd::string::StrSliceExecFns;
use crate::fragment::{Cond, Expr, Fragment, FragmentV, Param, ParamKey, ParamValue, ValidationBody};
use crate::semantics::{
    cond_fails, eval_expr, eval_param, lookup_field, spec_eval, spec_eval_parts, Env, ErrEntry,
    ErrEntryV, ErrKey, ErrParam, FieldEntry, RtError, RtParam, RtVal, RtValV,
};
use crate::text::{clone_opt_string, str_eq};

verus! {

/// A fresh copy of a runtime value, equal to the original in view.
pub fn clone_rt_val(v: &RtVal) -> (r: RtVal)
    ensures
        r.deep_view() == v.deep_view(),
    decreases *v,
{
    match v {
        RtVal::Int(n) => RtVal::Int(*n),
        RtVal::Text(s) => RtVal::Text(s.clone()),
        RtVal::Nothing => RtVal::Nothing,
        RtVal::Filled(inner) => RtVal::Filled(Box::new(clone_rt_val(&**inner))),
    }
}

/// Structural equality of runtime values, by view.
pub fn rt_val_eq(a: &RtVal, b: &RtVal) -> (r: bool)
    ensures
        r == (a.deep_view() == b.deep_view()),
    decreases *a,
{
    match (a, b) {
        (RtVal::Int(x), RtVal::Int(y)) => x == y,
        (RtVal::Text(x), RtVal::Text(y)) => str_eq(x.as_str(), y.as_str()),
        (RtVal::Nothing, RtVal::Nothing) => true,
        (RtVal::Filled(x), RtVal::Filled(y)) => rt_val_eq(&**x, &**y),
        _ => false,
    }
}

/// Push with the collection's deep view tracked.
fn push_with_view<T: DeepView>(v: Vec<T>, x: T) -> (r: Vec<T>)
    ensures
        r.deep_view() == v.deep_view().push(x.deep_view()),
{
    let ghost pre = v.deep_view();
    let ghost prevv = v@;
    let ghost xv = x.deep_view();
    let mut out = v;
    out.push(x);
    proof {
        assert(out@.len() == prevv.len() + 1);
        assert(pre.len() == prevv.len());
        assert forall|j: int| 0 <= j < out@.len() implies out.deep_view()[j] == pre.push(xv)[j] by {
            assert(out.deep_view()[j] == out@[j].deep_view());
            if j < prevv.len() {
                assert(out@[j] == prevv[j]);
                assert(pre[j] == prevv[j].deep_view());
            } else {
                assert(out@[j].deep_view() == xv);
            }
        }
        assert(out.deep_view() =~= pre.push(xv));
    }
    out
}

fn clone_err_params(params: &Vec<ErrParam>) -> (r: Vec<ErrParam>)
    ensures
        r.deep_view() == params.deep_view(),
{
    let mut out: Vec<ErrParam> = Vec::new();
    let mut i: usize = 0;
    while i < params.len()
        invariant
            i <= params.len(),
            out.deep_view() =~= params.deep_view().take(i as int),
        decreases params.len() - i,
    {
        let p = &params[i];
        let value = match &p.value {
            RtParam::Uint(n) => RtParam::Uint(*n),
            RtParam::Int(n) => RtParam::Int(*n),
            RtParam::Text(s) => RtParam::Text(s.clone()),
            RtParam::Val(v) => RtParam::Val(clone_rt_val(v)),
        };
        let x = ErrParam { key: p.key, value };
        proof {
            assert(x.deep_view() == params.deep_view()[i as int]);
        }
        out = push_with_view(out, x);
        proof {
            assert(out.deep_view() =~= params.deep_view().take(i + 1));
        }
        i += 1;
    }
    proof {
        assert(params.deep_view().take(params.len() as int) =~= params.deep_view());
    }
    out
}

fn lookup_from(fields: &Vec<FieldEntry>, start: usize, name: &str) -> (r: RtVal)
    requires
        start <= fields.len(),
    ensures
        r.deep_view() == lookup_field(fields.deep_view().skip(start as int), name@),
    decreases fields.len() - start,
{
    if start == fields.len() {
        proof {
            assert(fields.deep_view().skip(start as int) =~= Seq::<
                crate::semantics::FieldEntryV,
            >::empty());
        }
        RtVal::Nothing
    } else if str_eq(fields[start].name.as_str(), name) {
        clone_rt_val(&fields[start].value)
    } else {
        let r = lookup_from(fields, start + 1, name);
        proof {
            assert(fields.deep_view().skip(start as int).drop_first() =~= fields.deep_view().skip(
                start + 1,
            ));
        }
        r
    }
}

/// The value a field currently holds in the environment, absent fields
/// reading as nothing.
fn lookup_value(env: &Env, name: &str) -> (r: RtVal)
    ensures
        r.deep_view() == lookup_field(env.deep_view().fields, name@),
{
    let r = lookup_from(&env.fields, 0, name);
    proof {
        assert(env.fields.deep_view().skip(0) =~= env.fields.deep_view());
    }
    r
}

fn eval_expr_exec(e: &Expr, env: &Env, bound: Option<&RtVal>) -> (r: RtVal)
    ensures
        r.deep_view() == eval_expr(e.deep_view(), env.deep_view(), bound.deep_view()),
{
    match e {
        Expr::Binding(_) => match bound {
            Some(v) => clone_rt_val(v),
            None => RtVal::Nothing,
        },
        Expr::SelfField(f) => lookup_value(env, f.as_str()),
        Expr::RefSelfField(f) => lookup_value(env, f.as_str()),
    }
}

fn length_passes(min: &Option<u64>, max: &Option<u64>, equal: &Option<u64>, v: &RtVal) -> (r: bool)
    ensures
        r == crate::semantics::length_check_passes(*min, *max, *equal, v.deep_view()),
{
    match v {
        RtVal::Text(s) => {
            let l = s.as_str().unicode_len() as u64;
            match equal {
                Some(e) => l == *e,
                None => {
                    let min_ok = match min {
                        Some(m) => l >= *m,
                        None => true,
                    };
                    let max_ok = match max {
                        Some(m) => l <= *m,
                        None => true,
                    };
                    min_ok && max_ok
                },
            }
        },
        _ => true,
    }
}

fn eval_cond(c: &Cond, env: &Env, bound: Option<&RtVal>) -> (r: bool)
    ensures
        r == cond_fails(c.deep_view(), env.deep_view(), bound.deep_view()),
{
    match c {
        Cond::LengthFails { min, max, equal, param } => {
            let v = eval_expr_exec(param, env, bound);
            !length_passes(min, max, equal, &v)
        },
        Cond::RangeFails { min, max, param } => {
            let v = eval_expr_exec(param, env, bound);
            match v {
                RtVal::Int(i) => !(*min <= i && i <= *max),
                _ => false,
            }
        },
        Cond::EmailFails { .. } => !env.email_ok,
        Cond::UrlFails { .. } => !env.url_ok,
        Cond::CreditCardFails { .. } => !env.credit_card_ok,
        Cond::PhoneFails { .. } => !env.phone_ok,
        Cond::ContainsFails { .. } => !env.contains_ok,
        Cond::RegexFails { .. } => !env.regex_ok,
        Cond::MustMatchFails { left, right } => {
            let l = eval_expr_exec(left, env, bound);
            let r = eval_expr_exec(right, env, bound);
            !rt_val_eq(&l, &r)
        },
    }
}

fn eval_params(params: &Vec<Param>, env: &Env, bound: Option<&RtVal>) -> (r: Vec<ErrParam>)
    ensures
        r.deep_view() == crate::semantics::eval_params_all(
            params.deep_view(),
            env.deep_view(),
            bound.deep_view(),
        ),
{
    let mut out: Vec<ErrParam> = Vec::new();
    let mut i: usize = 0;
    while i < params.len()
        invariant
            i <= params.len(),
            out.deep_view() =~= crate::semantics::eval_params_all(
                params.deep_view().take(i as int),
                env.deep_view(),
                bound.deep_view(),
            ),
        decreases params.len() - i,
    {
        let p = &params[i];
        let value = match &p.value {
            ParamValue::UintLit(n) => RtParam::Uint(*n),
            ParamValue::IntLit(n) => RtParam::Int(*n),
            ParamValue::StrLit(s) => RtParam::Text(s.clone()),
            ParamValue::Value(e) => RtParam::Val(eval_expr_exec(e, env, bound)),
        };
        let x = ErrParam { key: p.key, value };
        let ghost xv = x.deep_view();
        proof {
            assert(xv == eval_param(
                params.deep_view()[i as int],
                env.deep_view(),
                bound.deep_view(),
            ));
        }
        out = push_with_view(out, x);
        proof {
            let lhs = out.deep_view();
            let rhs = crate::semantics::eval_params_all(
                params.deep_view().take(i + 1),
                env.deep_view(),
                bound.deep_view(),
            );
            assert forall|j: int| 0 <= j < i + 1 implies lhs[j] == rhs[j] by {
                assert(params.deep_view().take(i + 1)[j] == params.deep_view()[j]);
                if j < i {
                    assert(params.deep_view().take(i as int)[j] == params.deep_view()[j]);
                } else {
                    assert(lhs[j] == xv);
                }
            }
            assert(lhs =~= rhs);
        }
        i += 1;
    }
    proof {
        assert(params.deep_view().take(params.len() as int) =~= params.deep_view());
    }
    out
}

/// One step of the interpreter: evaluates a fragment against the
/// environment and the binding in scope, extending the error collection
/// exactly as the specification-level evaluation does.
pub fn eval_fragment(f: &Fragment, env: &Env, bound: Option<&RtVal>, errors: Vec<ErrEntry>) -> (r:
    Vec<ErrEntry>)
    ensures
        r.deep_view() == spec_eval(
            f.deep_view(),
            env.deep_view(),
            bound.deep_view(),
            errors.deep_view(),
        ).errors,
    decreases *f,
{
    match f {
        Fragment::Empty => errors,
        Fragment::Check { cond, error, params, field } => {
            if eval_cond(cond, env, bound) {
                let err = RtError {
                    code: error.code.clone(),
                    message: clone_opt_string(&error.message),
                    params: eval_params(params, env, bound),
                };
                let entry = ErrEntry { key: ErrKey::Field(field.clone()), error: err };
                push_with_view(errors, entry)
            } else {
                errors
            }
        },
        Fragment::CustomCheck { function: _, param, message, field } => {
            match &env.custom_result {
                Some(e) => {
                    let msg = match message {
                        Some(m) => Some(m.clone()),
                        None => clone_opt_string(&e.message),
                    };
                    let ps = push_with_view(
                        clone_err_params(&e.params),
                        ErrParam {
                            key: ParamKey::Value,
                            value: RtParam::Val(eval_expr_exec(param, env, bound)),
                        },
                    );
                    let err = RtError { code: e.code.clone(), message: msg, params: ps };
                    let entry = ErrEntry { key: ErrKey::Field(field.clone()), error: err };
                    push_with_view(errors, entry)
                },
                None => errors,
            }
        },
        Fragment::SchemaCheck { function: _, message } => {
            match &env.schema_result {
                Some(e) => {
                    let msg = match message {
                        Some(m) => Some(m.clone()),
                        None => clone_opt_string(&e.message),
                    };
                    let err = RtError {
                        code: e.code.clone(),
                        message: msg,
                        params: clone_err_params(&e.params),
                    };
                    let entry = ErrEntry { key: ErrKey::Whole, error: err };
                    push_with_view(errors, entry)
                },
                None => errors,
            }
        },
        Fragment::IfLetSome { field, pattern: _, inner } => {
            let v = lookup_value(env, field.as_str());
            match v {
                RtVal::Filled(b) => eval_fragment(&**inner, env, Some(&*b), errors),
                _ => errors,
            }
        },
        Fragment::IfLetSomeSome { field, pattern: _, inner } => {
            let v = lookup_value(env, field.as_str());
            let ghost vv = v.deep_view();
            match v {
                RtVal::Filled(b1) => {
                proof {
                    assert(vv == RtValV::Filled(Box::new(b1.deep_view())));
                    assert(lookup_field(env.deep_view().fields, field@) == vv);
                }
                let ghost b1v = b1.deep_view();
                match *b1 {
                    RtVal::Filled(b2) => {
                        proof {
                            assert(b1v == RtValV::Filled(Box::new(b2.deep_view())));
                        }
                        eval_fragment(&**inner, env, Some(&*b2), errors)
                    },
                    _ => errors,
                }
                },
                _ => errors,
            }
        },
        Fragment::IfNoErrors { inner } => {
            proof {
                assert(errors.deep_view().len() == errors@.len());
            }
            if errors.len() == 0 {
                eval_fragment(&**inner, env, bound, errors)
            } else {
                errors
            }
        },
    }
}

/// Runs an assembled validation procedure against an environment,
/// starting from an empty error collection, and returns the collection
/// the generated code would have filled.
pub fn run_validation(body: &ValidationBody, env: &Env) -> (r: Vec<ErrEntry>)
    ensures
        r.deep_view() == spec_eval_parts(
            body.deep_view(),
            env.deep_view(),
            Seq::<ErrEntryV>::empty(),
        ).errors,
{
    let mut errors: Vec<ErrEntry> = Vec::new();
    let mut i: usize = 0;
    proof {
        assert(errors.deep_view() =~= Seq::<ErrEntryV>::empty());
        assert(body.deep_view().skip(0) =~= body.deep_view());
    }
    while i < body.parts.len()
        invariant
            i <= body.parts.len(),
            spec_eval_parts(
                body.deep_view().skip(i as int),
                env.deep_view(),
                errors.deep_view(),
            ).errors == spec_eval_parts(
                body.deep_view(),
                env.deep_view(),
                Seq::<ErrEntryV>::empty(),
            ).errors,
        decreases body.parts.len() - i,
    {
        errors = eval_fragment(&body.parts[i], env, None, errors);
        proof {
            assert(body.deep_view().skip(i as int).drop_first() =~= body.deep_view().skip(i + 1));
        }
        i += 1;
    }
    proof {
        assert(body.deep_view().skip(body.parts.len() as int) =~= Seq::<FragmentV>::empty());
    }
    errors
}

} // verus!
