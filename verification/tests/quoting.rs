use validator_derive::fragment::{
    Cond, ErrorTemplate, Expr, Fragment, Param, ParamKey, ParamValue, Pattern,
};
use validator_derive::quoting::{
    assemble_validation, quote_contains_validation, quote_credit_card_validation,
    quote_custom_validation, quote_email_validation, quote_field_validation,
    quote_length_validation, quote_must_match_validation, quote_phone_validation,
    quote_range_validation, quote_regex_validation, quote_schema_validation,
    quote_url_validation, FieldQuoter,
};
use validator_derive::rules::{
    field_validation_wf, schema_validation_wf, FieldValidation, SchemaValidation, Validator,
};
use validator_derive::text::{check_ident, check_path};

fn quoter(ty: &str) -> FieldQuoter {
    FieldQuoter::new(String::from("name"), String::from("name"), String::from(ty))
}

fn rule(validator: Validator) -> FieldValidation {
    FieldValidation { code: String::from("the_code"), message: None, validator }
}

#[test]
fn validator_param_plain_type_takes_reference() {
    let fq = quoter("String");
    assert_eq!(fq.quote_validator_param(), Expr::RefSelfField(String::from("name")));
}

#[test]
fn validator_param_reference_type_passes_value() {
    let fq = quoter("&str");
    assert_eq!(fq.quote_validator_param(), Expr::SelfField(String::from("name")));
}

#[test]
fn validator_param_number_type_passes_value() {
    let fq = quoter("u8");
    assert_eq!(fq.quote_validator_param(), Expr::SelfField(String::from("name")));
}

#[test]
fn validator_param_optional_type_uses_unwrapped_binding() {
    let fq = quoter("Option<String>");
    assert_eq!(fq.quote_validator_param(), Expr::Binding(String::from("name")));
}

#[test]
fn optional_pattern_by_reference_for_owned_inner() {
    let fq = quoter("Option<String>");
    assert_eq!(fq.get_optional_validator_param(), Pattern::ByRef(String::from("name")));
}

#[test]
fn optional_pattern_by_value_for_reference_inner() {
    let fq = quoter("Option<&str>");
    assert_eq!(fq.get_optional_validator_param(), Pattern::ByValue(String::from("name")));
}

#[test]
fn optional_pattern_by_value_for_number() {
    let fq = quoter("Option<u64>");
    assert_eq!(fq.get_optional_validator_param(), Pattern::ByValue(String::from("name")));
}

#[test]
fn optional_pattern_by_value_for_double_optional_reference() {
    let fq = quoter("Option<Option<&str>>");
    assert_eq!(fq.get_optional_validator_param(), Pattern::ByValue(String::from("name")));
}

#[test]
fn wrap_leaves_plain_fields_alone() {
    let fq = quoter("String");
    assert_eq!(fq.wrap_if_option(Fragment::Empty), Fragment::Empty);
}

#[test]
fn wrap_nests_one_guard_for_optional() {
    let fq = quoter("Option<String>");
    let wrapped = fq.wrap_if_option(Fragment::Empty);
    assert_eq!(
        wrapped,
        Fragment::IfLetSome {
            field: String::from("name"),
            pattern: Pattern::ByRef(String::from("name")),
            inner: Box::new(Fragment::Empty),
        }
    );
}

#[test]
fn wrap_nests_two_guards_for_double_optional() {
    let fq = quoter("Option<Option<String>>");
    let wrapped = fq.wrap_if_option(Fragment::Empty);
    assert_eq!(
        wrapped,
        Fragment::IfLetSomeSome {
            field: String::from("name"),
            pattern: Pattern::ByRef(String::from("name")),
            inner: Box::new(Fragment::Empty),
        }
    );
}

#[test]
fn length_with_min_only_attaches_min_and_value() {
    let fq = quoter("String");
    let v = rule(Validator::Length { min: Some(5), max: None, equal: None });
    let fragment = quote_length_validation(&fq, &v);
    assert_eq!(
        fragment,
        Fragment::Check {
            cond: Cond::LengthFails {
                min: Some(5),
                max: None,
                equal: None,
                param: Expr::RefSelfField(String::from("name")),
            },
            error: ErrorTemplate { code: String::from("the_code"), message: None },
            params: vec![
                Param { key: ParamKey::Min, value: ParamValue::UintLit(5) },
                Param {
                    key: ParamKey::Value,
                    value: ParamValue::Value(Expr::RefSelfField(String::from("name"))),
                },
            ],
            field: String::from("name"),
        }
    );
}

#[test]
fn length_with_all_bounds_attaches_them_in_order() {
    let fq = quoter("String");
    let v = rule(Validator::Length { min: Some(1), max: Some(9), equal: Some(4) });
    let fragment = quote_length_validation(&fq, &v);
    match fragment {
        Fragment::Check { params, .. } => {
            let keys: Vec<ParamKey> = params.iter().map(|p| p.key).collect();
            assert_eq!(
                keys,
                vec![ParamKey::Min, ParamKey::Max, ParamKey::Equal, ParamKey::Value]
            );
        }
        other => panic!("expected a check, got {:?}", other),
    }
}

#[test]
fn range_attaches_min_max_value() {
    let fq = quoter("i32");
    let v = rule(Validator::Range { min: 0, max: 10 });
    let fragment = quote_range_validation(&fq, &v);
    assert_eq!(
        fragment,
        Fragment::Check {
            cond: Cond::RangeFails {
                min: 0,
                max: 10,
                param: Expr::SelfField(String::from("name")),
            },
            error: ErrorTemplate { code: String::from("the_code"), message: None },
            params: vec![
                Param { key: ParamKey::Min, value: ParamValue::IntLit(0) },
                Param { key: ParamKey::Max, value: ParamValue::IntLit(10) },
                Param {
                    key: ParamKey::Value,
                    value: ParamValue::Value(Expr::SelfField(String::from("name"))),
                },
            ],
            field: String::from("name"),
        }
    );
}

#[test]
fn email_check_attaches_value_only() {
    let fq = quoter("String");
    let v = rule(Validator::Email);
    let fragment = quote_email_validation(&fq, &v);
    assert_eq!(
        fragment,
        Fragment::Check {
            cond: Cond::EmailFails { param: Expr::RefSelfField(String::from("name")) },
            error: ErrorTemplate { code: String::from("the_code"), message: None },
            params: vec![Param {
                key: ParamKey::Value,
                value: ParamValue::Value(Expr::RefSelfField(String::from("name"))),
            }],
            field: String::from("name"),
        }
    );
}

#[test]
fn optional_email_check_is_nested_under_the_guard() {
    let fq = quoter("Option<String>");
    let v = rule(Validator::Email);
    let fragment = quote_email_validation(&fq, &v);
    match fragment {
        Fragment::IfLetSome { field, pattern, inner } => {
            assert_eq!(field, String::from("name"));
            assert_eq!(pattern, Pattern::ByRef(String::from("name")));
            match *inner {
                Fragment::Check { cond, .. } => {
                    assert_eq!(
                        cond,
                        Cond::EmailFails { param: Expr::Binding(String::from("name")) }
                    );
                }
                other => panic!("expected a check inside the guard, got {:?}", other),
            }
        }
        other => panic!("expected a guard, got {:?}", other),
    }
}

#[test]
fn url_credit_card_phone_share_the_value_only_shape() {
    let fq = quoter("String");
    for (fragment, expected) in [
        (
            quote_url_validation(&fq, &rule(Validator::Url)),
            Cond::UrlFails { param: Expr::RefSelfField(String::from("name")) },
        ),
        (
            quote_credit_card_validation(&fq, &rule(Validator::CreditCard)),
            Cond::CreditCardFails { param: Expr::RefSelfField(String::from("name")) },
        ),
        (
            quote_phone_validation(&fq, &rule(Validator::Phone)),
            Cond::PhoneFails { param: Expr::RefSelfField(String::from("name")) },
        ),
    ] {
        match fragment {
            Fragment::Check { cond, params, .. } => {
                assert_eq!(cond, expected);
                assert_eq!(params.len(), 1);
                assert_eq!(params[0].key, ParamKey::Value);
            }
            other => panic!("expected a check, got {:?}", other),
        }
    }
}

#[test]
fn must_match_compares_both_fields_through_the_structure() {
    let fq = quoter("String");
    let v = rule(Validator::MustMatch(String::from("password2")));
    let fragment = quote_must_match_validation(&fq, &v);
    assert_eq!(
        fragment,
        Fragment::Check {
            cond: Cond::MustMatchFails {
                left: Expr::RefSelfField(String::from("name")),
                right: Expr::RefSelfField(String::from("password2")),
            },
            error: ErrorTemplate { code: String::from("the_code"), message: None },
            params: vec![
                Param {
                    key: ParamKey::Value,
                    value: ParamValue::Value(Expr::RefSelfField(String::from("name"))),
                },
                Param {
                    key: ParamKey::Other,
                    value: ParamValue::Value(Expr::RefSelfField(String::from("password2"))),
                },
            ],
            field: String::from("name"),
        }
    );
}

#[test]
fn custom_rule_keeps_the_function_path_and_message() {
    let fq = quoter("String");
    let v = FieldValidation {
        code: String::from("the_code"),
        message: Some(String::from("say so")),
        validator: Validator::Custom(String::from("crate::checks::verify_name")),
    };
    let fragment = quote_custom_validation(&fq, &v);
    assert_eq!(
        fragment,
        Fragment::CustomCheck {
            function: String::from("crate::checks::verify_name"),
            param: Expr::RefSelfField(String::from("name")),
            message: Some(String::from("say so")),
            field: String::from("name"),
        }
    );
}

#[test]
fn contains_attaches_value_and_needle() {
    let fq = quoter("String");
    let v = rule(Validator::Contains(String::from("@")));
    let fragment = quote_contains_validation(&fq, &v);
    assert_eq!(
        fragment,
        Fragment::Check {
            cond: Cond::ContainsFails {
                param: Expr::RefSelfField(String::from("name")),
                needle: String::from("@"),
            },
            error: ErrorTemplate { code: String::from("the_code"), message: None },
            params: vec![
                Param {
                    key: ParamKey::Value,
                    value: ParamValue::Value(Expr::RefSelfField(String::from("name"))),
                },
                Param { key: ParamKey::Needle, value: ParamValue::StrLit(String::from("@")) },
            ],
            field: String::from("name"),
        }
    );
}

#[test]
fn regex_attaches_value_only() {
    let fq = quoter("String");
    let v = rule(Validator::Regex(String::from("crate::patterns::NAME_RE")));
    let fragment = quote_regex_validation(&fq, &v);
    assert_eq!(
        fragment,
        Fragment::Check {
            cond: Cond::RegexFails {
                pattern: String::from("crate::patterns::NAME_RE"),
                param: Expr::RefSelfField(String::from("name")),
            },
            error: ErrorTemplate { code: String::from("the_code"), message: None },
            params: vec![Param {
                key: ParamKey::Value,
                value: ParamValue::Value(Expr::RefSelfField(String::from("name"))),
            }],
            field: String::from("name"),
        }
    );
}

#[test]
fn dispatch_agrees_with_each_translator() {
    let fq = quoter("String");
    let v = rule(Validator::Length { min: Some(2), max: None, equal: None });
    assert_eq!(quote_field_validation(&fq, &v), quote_length_validation(&fq, &v));
    let v = rule(Validator::Email);
    assert_eq!(quote_field_validation(&fq, &v), quote_email_validation(&fq, &v));
    let v = rule(Validator::Range { min: -3, max: 3 });
    assert_eq!(quote_field_validation(&fq, &v), quote_range_validation(&fq, &v));
}

#[test]
fn generating_twice_yields_identical_fragments() {
    let make = || {
        let fq = quoter("Option<String>");
        let v = FieldValidation {
            code: String::from("length"),
            message: Some(String::from("too short")),
            validator: Validator::Length { min: Some(2), max: Some(64), equal: None },
        };
        quote_field_validation(&fq, &v)
    };
    assert_eq!(make(), make());
    let schema = || {
        quote_schema_validation(Some(SchemaValidation {
            function: String::from("validate_whole"),
            message: None,
            skip_on_field_errors: true,
        }))
    };
    assert_eq!(schema(), schema());
}

#[test]
fn schema_validation_without_rule_is_empty() {
    assert_eq!(quote_schema_validation(None), Fragment::Empty);
}

#[test]
fn schema_validation_without_skip_is_a_bare_call() {
    let fragment = quote_schema_validation(Some(SchemaValidation {
        function: String::from("validate_whole"),
        message: Some(String::from("bad record")),
        skip_on_field_errors: false,
    }));
    assert_eq!(
        fragment,
        Fragment::SchemaCheck {
            function: String::from("validate_whole"),
            message: Some(String::from("bad record")),
        }
    );
}

#[test]
fn schema_validation_with_skip_is_guarded_by_emptiness() {
    let fragment = quote_schema_validation(Some(SchemaValidation {
        function: String::from("validate_whole"),
        message: None,
        skip_on_field_errors: true,
    }));
    assert_eq!(
        fragment,
        Fragment::IfNoErrors {
            inner: Box::new(Fragment::SchemaCheck {
                function: String::from("validate_whole"),
                message: None,
            }),
        }
    );
}

#[test]
fn assembly_puts_the_schema_fragment_last() {
    let fq = quoter("String");
    let f1 = quote_email_validation(&fq, &rule(Validator::Email));
    let f2 = quote_email_validation(&fq, &rule(Validator::Email));
    let body = assemble_validation(
        vec![f1, f2],
        Some(SchemaValidation {
            function: String::from("validate_whole"),
            message: None,
            skip_on_field_errors: false,
        }),
    );
    assert_eq!(body.parts.len(), 3);
    assert_eq!(
        body.parts[2],
        Fragment::SchemaCheck { function: String::from("validate_whole"), message: None }
    );
}

#[test]
fn length_rule_needs_at_least_one_bound() {
    assert!(!field_validation_wf(&rule(Validator::Length {
        min: None,
        max: None,
        equal: None
    })));
    assert!(field_validation_wf(&rule(Validator::Length {
        min: Some(1),
        max: None,
        equal: None
    })));
}

#[test]
fn custom_and_regex_rules_need_well_formed_paths() {
    assert!(field_validation_wf(&rule(Validator::Custom(String::from("validate_it")))));
    assert!(field_validation_wf(&rule(Validator::Custom(String::from("::a::b_c::d9")))));
    assert!(!field_validation_wf(&rule(Validator::Custom(String::from("")))));
    assert!(!field_validation_wf(&rule(Validator::Custom(String::from("a:::b")))));
    assert!(!field_validation_wf(&rule(Validator::Custom(String::from("a::9b")))));
    assert!(!field_validation_wf(&rule(Validator::Regex(String::from("a::b::")))));
    assert!(field_validation_wf(&rule(Validator::Regex(String::from("re::NAME")))));
}

#[test]
fn must_match_needs_a_well_formed_sibling_identifier() {
    assert!(field_validation_wf(&rule(Validator::MustMatch(String::from("other_field")))));
    assert!(!field_validation_wf(&rule(Validator::MustMatch(String::from("0bad")))));
    assert!(!field_validation_wf(&rule(Validator::MustMatch(String::from("a::b")))));
}

#[test]
fn schema_rule_needs_a_well_formed_identifier() {
    assert!(schema_validation_wf(&SchemaValidation {
        function: String::from("validate_whole"),
        message: None,
        skip_on_field_errors: false,
    }));
    assert!(!schema_validation_wf(&SchemaValidation {
        function: String::from("not an ident"),
        message: None,
        skip_on_field_errors: false,
    }));
}

#[test]
fn ident_and_path_checks_agree_with_the_grammar() {
    assert!(check_ident("snake_case_9"));
    assert!(check_ident("_leading"));
    assert!(!check_ident(""));
    assert!(!check_ident("9lead"));
    assert!(!check_ident("has-dash"));
    assert!(check_path("one"));
    assert!(check_path("one::two::three"));
    assert!(check_path("::rooted::path"));
    assert!(!check_path("::"));
    assert!(!check_path("a::"));
    assert!(!check_path("a:b"));
    assert!(!check_path("a::::b"));
}
