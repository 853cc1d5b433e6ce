use validator_derive::interp::{eval_fragment, run_validation};
use validator_derive::quoting::{assemble_validation, quote_field_validation, FieldQuoter};
use validator_derive::rules::{FieldValidation, SchemaValidation, Validator};
use validator_derive::semantics::{
    Env, ErrEntry, ErrKey, ErrParam, FieldEntry, RtError, RtParam, RtVal,
};
use validator_derive::fragment::ParamKey;

fn env_with(fields: Vec<FieldEntry>) -> Env {
    Env {
        fields,
        email_ok: true,
        url_ok: true,
        credit_card_ok: true,
        phone_ok: true,
        regex_ok: true,
        contains_ok: true,
        custom_result: None,
        schema_result: None,
    }
}

fn field(name: &str, value: RtVal) -> FieldEntry {
    FieldEntry { name: String::from(name), value }
}

fn quoter(name: &str, ty: &str) -> FieldQuoter {
    FieldQuoter::new(String::from(name), String::from(name), String::from(ty))
}

fn rule(code: &str, validator: Validator) -> FieldValidation {
    FieldValidation { code: String::from(code), message: None, validator }
}

fn text(s: &str) -> RtVal {
    RtVal::Text(String::from(s))
}

#[test]
fn optional_field_absent_produces_zero_errors() {
    let fq = quoter("mail", "Option<String>");
    let fragment = quote_field_validation(&fq, &rule("email", Validator::Email));
    let mut env = env_with(vec![field("mail", RtVal::Nothing)]);
    env.email_ok = false;
    let errors = eval_fragment(&fragment, &env, None, Vec::new());
    assert!(errors.is_empty());
}

#[test]
fn optional_field_present_runs_the_check() {
    let fq = quoter("mail", "Option<String>");
    let fragment = quote_field_validation(&fq, &rule("email", Validator::Email));
    let mut env = env_with(vec![field("mail", RtVal::Filled(Box::new(text("oops"))))]);
    env.email_ok = false;
    let errors = eval_fragment(&fragment, &env, None, Vec::new());
    assert_eq!(errors.len(), 1);
    assert_eq!(errors[0].key, ErrKey::Field(String::from("mail")));
    assert_eq!(errors[0].error.code, String::from("email"));
    let mut env = env_with(vec![field("mail", RtVal::Filled(Box::new(text("fine"))))]);
    env.email_ok = true;
    assert!(eval_fragment(&fragment, &env, None, Vec::new()).is_empty());
}

#[test]
fn double_optional_field_needs_both_layers() {
    let fq = quoter("mail", "Option<Option<String>>");
    let fragment = quote_field_validation(&fq, &rule("email", Validator::Email));
    let mut absent_outer = env_with(vec![field("mail", RtVal::Nothing)]);
    absent_outer.email_ok = false;
    assert!(eval_fragment(&fragment, &absent_outer, None, Vec::new()).is_empty());
    let mut absent_inner =
        env_with(vec![field("mail", RtVal::Filled(Box::new(RtVal::Nothing)))]);
    absent_inner.email_ok = false;
    assert!(eval_fragment(&fragment, &absent_inner, None, Vec::new()).is_empty());
    let mut present = env_with(vec![field(
        "mail",
        RtVal::Filled(Box::new(RtVal::Filled(Box::new(text("oops"))))),
    )]);
    present.email_ok = false;
    assert_eq!(eval_fragment(&fragment, &present, None, Vec::new()).len(), 1);
}

#[test]
fn length_min_only_passes_at_or_above_min() {
    let fq = quoter("nick", "String");
    let fragment = quote_field_validation(
        &fq,
        &rule("length", Validator::Length { min: Some(5), max: None, equal: None }),
    );
    let at_min = env_with(vec![field("nick", text("exact"))]);
    assert!(eval_fragment(&fragment, &at_min, None, Vec::new()).is_empty());
    let above_min = env_with(vec![field("nick", text("a very long value indeed"))]);
    assert!(eval_fragment(&fragment, &above_min, None, Vec::new()).is_empty());
}

#[test]
fn length_min_only_failure_attaches_min_and_value_only() {
    let fq = quoter("nick", "String");
    let fragment = quote_field_validation(
        &fq,
        &rule("length", Validator::Length { min: Some(5), max: None, equal: None }),
    );
    let env = env_with(vec![field("nick", text("abc"))]);
    let errors = eval_fragment(&fragment, &env, None, Vec::new());
    assert_eq!(
        errors,
        vec![ErrEntry {
            key: ErrKey::Field(String::from("nick")),
            error: RtError {
                code: String::from("length"),
                message: None,
                params: vec![
                    ErrParam { key: ParamKey::Min, value: RtParam::Uint(5) },
                    ErrParam { key: ParamKey::Value, value: RtParam::Val(text("abc")) },
                ],
            },
        }]
    );
}

#[test]
fn range_zero_to_ten_passes_five() {
    let fq = quoter("count", "i64");
    let fragment =
        quote_field_validation(&fq, &rule("range", Validator::Range { min: 0, max: 10 }));
    let env = env_with(vec![field("count", RtVal::Int(5))]);
    assert!(eval_fragment(&fragment, &env, None, Vec::new()).is_empty());
}

#[test]
fn range_zero_to_ten_rejects_minus_one_with_parameters() {
    let fq = quoter("count", "i64");
    let fragment =
        quote_field_validation(&fq, &rule("range", Validator::Range { min: 0, max: 10 }));
    let env = env_with(vec![field("count", RtVal::Int(-1))]);
    let errors = eval_fragment(&fragment, &env, None, Vec::new());
    assert_eq!(
        errors,
        vec![ErrEntry {
            key: ErrKey::Field(String::from("count")),
            error: RtError {
                code: String::from("range"),
                message: None,
                params: vec![
                    ErrParam { key: ParamKey::Min, value: RtParam::Int(0) },
                    ErrParam { key: ParamKey::Max, value: RtParam::Int(10) },
                    ErrParam { key: ParamKey::Value, value: RtParam::Val(RtVal::Int(-1)) },
                ],
            },
        }]
    );
}

#[test]
fn range_zero_to_ten_rejects_fifteen_with_parameters() {
    let fq = quoter("count", "i64");
    let fragment =
        quote_field_validation(&fq, &rule("range", Validator::Range { min: 0, max: 10 }));
    let env = env_with(vec![field("count", RtVal::Int(15))]);
    let errors = eval_fragment(&fragment, &env, None, Vec::new());
    assert_eq!(errors.len(), 1);
    assert_eq!(
        errors[0].error.params,
        vec![
            ErrParam { key: ParamKey::Min, value: RtParam::Int(0) },
            ErrParam { key: ParamKey::Max, value: RtParam::Int(10) },
            ErrParam { key: ParamKey::Value, value: RtParam::Val(RtVal::Int(15)) },
        ]
    );
}

#[test]
fn must_match_equal_values_produce_zero_errors() {
    let fq = quoter("password", "String");
    let fragment = quote_field_validation(
        &fq,
        &rule("must_match", Validator::MustMatch(String::from("password2"))),
    );
    let env = env_with(vec![
        field("password", text("secret")),
        field("password2", text("secret")),
    ]);
    assert!(eval_fragment(&fragment, &env, None, Vec::new()).is_empty());
}

#[test]
fn must_match_unequal_values_produce_one_error_with_both_values() {
    let fq = quoter("password", "String");
    let fragment = quote_field_validation(
        &fq,
        &rule("must_match", Validator::MustMatch(String::from("password2"))),
    );
    let env = env_with(vec![
        field("password", text("secret")),
        field("password2", text("different")),
    ]);
    let errors = eval_fragment(&fragment, &env, None, Vec::new());
    assert_eq!(
        errors,
        vec![ErrEntry {
            key: ErrKey::Field(String::from("password")),
            error: RtError {
                code: String::from("must_match"),
                message: None,
                params: vec![
                    ErrParam { key: ParamKey::Value, value: RtParam::Val(text("secret")) },
                    ErrParam { key: ParamKey::Other, value: RtParam::Val(text("different")) },
                ],
            },
        }]
    );
}

#[test]
fn contains_failure_attaches_value_and_needle() {
    let fq = quoter("mail", "String");
    let fragment =
        quote_field_validation(&fq, &rule("contains", Validator::Contains(String::from("@"))));
    let mut env = env_with(vec![field("mail", text("no-at-sign"))]);
    env.contains_ok = false;
    let errors = eval_fragment(&fragment, &env, None, Vec::new());
    assert_eq!(errors.len(), 1);
    assert_eq!(
        errors[0].error.params,
        vec![
            ErrParam { key: ParamKey::Value, value: RtParam::Val(text("no-at-sign")) },
            ErrParam { key: ParamKey::Needle, value: RtParam::Text(String::from("@")) },
        ]
    );
}

#[test]
fn url_credit_card_phone_regex_report_under_their_codes() {
    for (code, validator, unset) in [
        ("url", Validator::Url, 0_usize),
        ("credit_card", Validator::CreditCard, 1),
        ("phone", Validator::Phone, 2),
        ("regex", Validator::Regex(String::from("re::PAT")), 3),
    ] {
        let fq = quoter("item", "String");
        let fragment = quote_field_validation(&fq, &rule(code, validator));
        let mut env = env_with(vec![field("item", text("value"))]);
        match unset {
            0 => env.url_ok = false,
            1 => env.credit_card_ok = false,
            2 => env.phone_ok = false,
            _ => env.regex_ok = false,
        }
        let errors = eval_fragment(&fragment, &env, None, Vec::new());
        assert_eq!(errors.len(), 1);
        assert_eq!(errors[0].error.code, String::from(code));
    }
}

#[test]
fn custom_failure_injects_the_declared_message_and_the_value() {
    let fq = quoter("nick", "String");
    let v = FieldValidation {
        code: String::from("ignored_by_custom"),
        message: Some(String::from("please fix the nick")),
        validator: Validator::Custom(String::from("crate::checks::verify_nick")),
    };
    let fragment = quote_field_validation(&fq, &v);
    let mut env = env_with(vec![field("nick", text("bad"))]);
    env.custom_result = Some(RtError {
        code: String::from("user_code"),
        message: Some(String::from("user message")),
        params: Vec::new(),
    });
    let errors = eval_fragment(&fragment, &env, None, Vec::new());
    assert_eq!(
        errors,
        vec![ErrEntry {
            key: ErrKey::Field(String::from("nick")),
            error: RtError {
                code: String::from("user_code"),
                message: Some(String::from("please fix the nick")),
                params: vec![ErrParam {
                    key: ParamKey::Value,
                    value: RtParam::Val(text("bad")),
                }],
            },
        }]
    );
}

#[test]
fn custom_success_produces_zero_errors() {
    let fq = quoter("nick", "String");
    let v = rule("custom", Validator::Custom(String::from("verify_nick")));
    let fragment = quote_field_validation(&fq, &v);
    let env = env_with(vec![field("nick", text("good"))]);
    assert!(eval_fragment(&fragment, &env, None, Vec::new()).is_empty());
}

fn two_field_body(x_value: &str, skip_on_field_errors: bool) -> (Vec<ErrEntry>, Env) {
    let x = quoter("x", "String");
    let y = quoter("y", "String");
    let fx = quote_field_validation(
        &x,
        &rule("length", Validator::Length { min: Some(5), max: None, equal: None }),
    );
    let fy = quote_field_validation(
        &y,
        &rule("length", Validator::Length { min: Some(1), max: None, equal: None }),
    );
    let body = assemble_validation(
        vec![fx, fy],
        Some(SchemaValidation {
            function: String::from("validate_whole"),
            message: None,
            skip_on_field_errors,
        }),
    );
    let mut env = env_with(vec![field("x", text(x_value)), field("y", text("okay"))]);
    env.schema_result = Some(RtError {
        code: String::from("schema_bad"),
        message: None,
        params: Vec::new(),
    });
    let errors = run_validation(&body, &env);
    (errors, env)
}

#[test]
fn schema_is_skipped_when_a_field_failed_before_it() {
    let (errors, _) = two_field_body("ab", true);
    assert_eq!(errors.len(), 1);
    assert_eq!(errors[0].key, ErrKey::Field(String::from("x")));
    assert!(errors.iter().all(|e| e.key != ErrKey::Whole));
}

#[test]
fn schema_runs_once_when_all_fields_passed() {
    let (errors, _) = two_field_body("abcdef", true);
    assert_eq!(errors.len(), 1);
    assert_eq!(errors[0].key, ErrKey::Whole);
    assert_eq!(errors[0].error.code, String::from("schema_bad"));
}

#[test]
fn schema_without_skip_runs_despite_field_errors() {
    let (errors, _) = two_field_body("ab", false);
    assert_eq!(errors.len(), 2);
    assert_eq!(errors[0].key, ErrKey::Field(String::from("x")));
    assert_eq!(errors[1].key, ErrKey::Whole);
}

#[test]
fn errors_follow_declaration_order() {
    let x = quoter("x", "String");
    let y = quoter("y", "String");
    let fx = quote_field_validation(
        &x,
        &rule("length_x", Validator::Length { min: Some(50), max: None, equal: None }),
    );
    let fy = quote_field_validation(
        &y,
        &rule("length_y", Validator::Length { min: Some(50), max: None, equal: None }),
    );
    let body = assemble_validation(vec![fx, fy], None);
    let env = env_with(vec![field("x", text("short")), field("y", text("short"))]);
    let errors = run_validation(&body, &env);
    assert_eq!(errors.len(), 2);
    assert_eq!(errors[0].key, ErrKey::Field(String::from("x")));
    assert_eq!(errors[1].key, ErrKey::Field(String::from("y")));
}

#[test]
fn multiple_rules_on_one_field_each_report() {
    let fq = quoter("mail", "String");
    let f1 = quote_field_validation(
        &fq,
        &rule("length", Validator::Length { min: Some(100), max: None, equal: None }),
    );
    let f2 = quote_field_validation(&fq, &rule("email", Validator::Email));
    let body = assemble_validation(vec![f1, f2], None);
    let mut env = env_with(vec![field("mail", text("short"))]);
    env.email_ok = false;
    let errors = run_validation(&body, &env);
    assert_eq!(errors.len(), 2);
    assert_eq!(errors[0].error.code, String::from("length"));
    assert_eq!(errors[1].error.code, String::from("email"));
}

#[test]
fn length_equal_bound_dominates() {
    let fq = quoter("pin", "String");
    let fragment = quote_field_validation(
        &fq,
        &rule("length", Validator::Length { min: Some(1), max: Some(100), equal: Some(4) }),
    );
    let wrong = env_with(vec![field("pin", text("123"))]);
    assert_eq!(eval_fragment(&fragment, &wrong, None, Vec::new()).len(), 1);
    let right = env_with(vec![field("pin", text("1234"))]);
    assert!(eval_fragment(&fragment, &right, None, Vec::new()).is_empty());
}

#[test]
fn rule_message_is_carried_into_the_error() {
    let fq = quoter("nick", "String");
    let v = FieldValidation {
        code: String::from("length"),
        message: Some(String::from("nick too short")),
        validator: Validator::Length { min: Some(5), max: None, equal: None },
    };
    let fragment = quote_field_validation(&fq, &v);
    let env = env_with(vec![field("nick", text("ab"))]);
    let errors = eval_fragment(&fragment, &env, None, Vec::new());
    assert_eq!(errors[0].error.message, Some(String::from("nick too short")));
}

#[test]
fn schema_message_overrides_the_returned_one() {
    let body = assemble_validation(
        Vec::new(),
        Some(SchemaValidation {
            function: String::from("validate_whole"),
            message: Some(String::from("the record is off")),
            skip_on_field_errors: false,
        }),
    );
    let mut env = env_with(Vec::new());
    env.schema_result = Some(RtError {
        code: String::from("schema_bad"),
        message: Some(String::from("original")),
        params: Vec::new(),
    });
    let errors = run_validation(&body, &env);
    assert_eq!(errors.len(), 1);
    assert_eq!(errors[0].error.message, Some(String::from("the record is off")));
}
