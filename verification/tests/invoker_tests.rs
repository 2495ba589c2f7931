use cage_runtime::invoker::{
    default_results, marshal_args, parse_i32, parse_i64, takes_arguments, InvokeError,
};
use cage_runtime::module::{FuncSig, Val, ValKind};
use cage_runtime::runtime::{Runtime, RuntimeError, Trap};

#[test]
fn parse_i32_exact_values() {
    assert_eq!(parse_i32("42"), Some(42));
    assert_eq!(parse_i32("+42"), Some(42));
    assert_eq!(parse_i32("-7"), Some(-7));
    assert_eq!(parse_i32("0"), Some(0));
    assert_eq!(parse_i32("007"), Some(7));
    assert_eq!(parse_i32("2147483647"), Some(i32::MAX));
    assert_eq!(parse_i32("-2147483648"), Some(i32::MIN));
}

#[test]
fn parse_i32_rejects_what_std_rejects() {
    for bad in ["", "+", "-", "1x", "x1", " 1", "1 ", "2147483648", "-2147483649", "1.5"] {
        assert_eq!(parse_i32(bad), None, "{bad:?} must not parse");
        assert!(bad.parse::<i32>().is_err(), "{bad:?} sanity check against std");
    }
}

#[test]
fn parse_matches_std_on_samples() {
    for text in ["0", "-0", "+000", "123456789", "-123456789", "2147483647", "2147483648", "99999999999999999999"] {
        assert_eq!(parse_i32(text), text.parse::<i32>().ok(), "i32 {text:?}");
        assert_eq!(parse_i64(text), text.parse::<i64>().ok(), "i64 {text:?}");
    }
}

#[test]
fn parse_i64_exact_values() {
    assert_eq!(parse_i64("9223372036854775807"), Some(i64::MAX));
    assert_eq!(parse_i64("-9223372036854775808"), Some(i64::MIN));
    assert_eq!(parse_i64("9223372036854775808"), None);
    assert_eq!(parse_i64("2147483648"), Some(2147483648));
}

#[test]
fn invocation_arity_error() {
    // Two declared parameters, one textual argument: the argument-count
    // error, not a partial call.
    let params = vec![ValKind::I32, ValKind::I32];
    let texts = vec!["1".to_owned()];
    assert_eq!(marshal_args(&params, &texts), Err(InvokeError::NotEnoughArguments));
}

#[test]
fn marshal_parses_in_order() {
    let params = vec![ValKind::I32, ValKind::I64];
    let texts = vec!["5".to_owned(), "-6".to_owned()];
    assert_eq!(marshal_args(&params, &texts), Ok(vec![Val::I32(5), Val::I64(-6)]));
}

#[test]
fn marshal_ignores_surplus_texts() {
    let params = vec![ValKind::I32];
    let texts = vec!["5".to_owned(), "surplus".to_owned()];
    assert_eq!(marshal_args(&params, &texts), Ok(vec![Val::I32(5)]));
    assert_eq!(marshal_args(&vec![], &texts), Ok(vec![]));
}

#[test]
fn marshal_reports_bad_integer_text() {
    let params = vec![ValKind::I32];
    let texts = vec!["four".to_owned()];
    assert_eq!(marshal_args(&params, &texts), Err(InvokeError::BadIntegerText));
    let params64 = vec![ValKind::I64];
    assert_eq!(marshal_args(&params64, &texts), Err(InvokeError::BadIntegerText));
}

#[test]
fn marshal_reports_unsupported_types() {
    let texts = vec!["1".to_owned()];
    for kind in [ValKind::F32, ValKind::F64, ValKind::Other] {
        assert_eq!(
            marshal_args(&vec![kind], &texts),
            Err(InvokeError::UnsupportedParamType),
        );
    }
}

#[test]
fn marshal_first_failure_wins() {
    // The first failing argument decides the error, in declaration order.
    let params = vec![ValKind::I32, ValKind::I32];
    let texts = vec!["bad".to_owned()];
    assert_eq!(marshal_args(&params, &texts), Err(InvokeError::BadIntegerText));
}

#[test]
fn result_placeholders_are_null_refs() {
    let r = default_results(3);
    assert_eq!(r, vec![Val::NullRef, Val::NullRef, Val::NullRef]);
    assert_eq!(default_results(0), vec![]);
}

#[test]
fn advisory_exactly_when_parameters_exist() {
    let with = FuncSig { params: vec![ValKind::I32], results: 0 };
    let without = FuncSig { params: vec![], results: 1 };
    assert!(takes_arguments(&with));
    assert!(!takes_arguments(&without));
}

#[test]
fn invoke_surfaces_call_failure() {
    let sig = FuncSig { params: vec![], results: 1 };
    let ok = Runtime::invoke_func(&sig, &vec![], &Ok(vec![Val::I32(4)]));
    assert_eq!(ok.unwrap(), vec![Val::I32(4)]);
    let trap = Trap { exit_status: Some(2) };
    let failed = Runtime::invoke_func(&sig, &vec![], &Err(trap));
    assert_eq!(failed.unwrap_err(), RuntimeError::EntryTrap(trap));
}

#[test]
fn invoke_checks_arity_before_calling() {
    let sig = FuncSig { params: vec![ValKind::I32, ValKind::I32], results: 0 };
    let r = Runtime::invoke_func(&sig, &vec!["1".to_owned()], &Ok(vec![]));
    assert_eq!(
        r.unwrap_err(),
        RuntimeError::Invoke(InvokeError::NotEnoughArguments),
    );
}
