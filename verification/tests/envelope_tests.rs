use aptos_wasm::cli_error::CliError;
use aptos_wasm::json::render_json_string;
use aptos_wasm::result::{cli_exit_code, CliPayload, ResultWrapper};
use aptos_wasm::utils::{to_common_result, to_common_success_result};

#[test]
fn success_with_module_ids_renders_pretty_list() {
    let payload = CliPayload::Strings(vec!["0x1::m1".to_string(), "0x1::m2".to_string()]);
    let r = to_common_result("CompilePackage", 3, Ok(payload));
    let s = r.unwrap();
    assert_eq!(s, "{\n  \"Result\": [\n    \"0x1::m1\",\n    \"0x1::m2\"\n  ]\n}");
}

#[test]
fn success_with_empty_list_renders_empty_array() {
    let r = to_common_result("CompilePackage", 0, Ok(CliPayload::Strings(vec![])));
    assert_eq!(r.unwrap(), "{\n  \"Result\": []\n}");
}

#[test]
fn success_with_text_renders_quoted_string() {
    let r = to_common_result("Disassemble", 1, Ok(CliPayload::Text("module m {}".to_string())));
    assert_eq!(r.unwrap(), "{\n  \"Result\": \"module m {}\"\n}");
}

#[test]
fn failure_renders_kind_and_message_on_err_side() {
    let e = CliError::MoveCompilationError("boom".to_string());
    let r = to_common_result("CompilePackage", 2, Err(e));
    let s = r.unwrap_err();
    assert_eq!(
        s,
        "{\n  \"Error\": {\n    \"kind\": \"MoveCompilationError\",\n    \"message\": \"boom\"\n  }\n}"
    );
}

#[test]
fn rendered_envelopes_are_json_shaped() {
    let ok = to_common_result(
        "CompilePackage",
        1,
        Ok(CliPayload::Strings(vec!["0x1::m".to_string()])),
    )
    .unwrap();
    let v: serde_json::Value = serde_json::from_str(&ok).unwrap();
    assert_eq!(v["Result"][0], "0x1::m");

    let err = to_common_result(
        "CompilePackage",
        1,
        Err(CliError::CommandArgumentError("bad \"arg\"\npath\\x".to_string())),
    )
    .unwrap_err();
    let v: serde_json::Value = serde_json::from_str(&err).unwrap();
    assert_eq!(v["Error"]["kind"], "CommandArgumentError");
    assert_eq!(v["Error"]["message"], "bad \"arg\"\npath\\x");
}

#[test]
fn success_result_collapses_payload_to_literal() {
    let payload = CliPayload::Strings(vec!["anything".to_string()]);
    let r = to_common_success_result("CompilePackage", 9, Ok(payload));
    assert_eq!(r.unwrap(), "{\n  \"Result\": \"Success\"\n}");
    let r = to_common_success_result(
        "CompilePackage",
        9,
        Err(CliError::UnexpectedError("nope".to_string())),
    );
    assert!(r.unwrap_err().contains("\"UnexpectedError\""));
}

#[test]
fn exit_code_is_zero_exactly_on_success() {
    assert_eq!(cli_exit_code(&Ok("fine".to_string())), 0);
    assert_eq!(cli_exit_code(&Err("broken".to_string())), 1);
}

#[test]
fn json_escaping_covers_quotes_controls_and_unicode() {
    let s = render_json_string("a\"b\\c\nd\te\rf\u{1}g\u{1F600}");
    assert_eq!(s, "\"a\\\"b\\\\c\\nd\\te\\rf\\u0001g\u{1F600}\"");
    let parsed: serde_json::Value = serde_json::from_str(&s).unwrap();
    assert_eq!(parsed, "a\"b\\c\nd\te\rf\u{1}g\u{1F600}");
}

#[test]
fn error_kinds_have_stable_names() {
    assert_eq!(CliError::CommandArgumentError(String::new()).to_str(), "CommandArgumentError");
    assert_eq!(CliError::MoveCompilationError(String::new()).to_str(), "MoveCompilationError");
    assert_eq!(CliError::UnexpectedError(String::new()).to_str(), "UnexpectedError");
    assert_eq!(CliError::NotSupportedError(String::new()).to_str(), "NotSupportedError");
}

#[test]
fn wrapper_records_elapsed_but_does_not_render_it() {
    let w = ResultWrapper::new(Ok(CliPayload::Text("x".to_string())), 1234);
    assert_eq!(w.elapsed_ms(), 1234);
    assert!(!w.render().contains("1234"));
}
