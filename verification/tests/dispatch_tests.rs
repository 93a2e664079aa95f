use aptos_wasm::cli_command::CliCommand;
use aptos_wasm::cli_error::CliError;
use aptos_wasm::move_tool::{
    BytecodePathCheck, CompilePackage, Disassemble, DispatcherAction, Interactive, TODO,
};
use aptos_wasm::move_package_dir::MovePackageDir;
use aptos_wasm::artifacts::{IncludedArtifacts, IncludedArtifactsArgs};

fn disassemble_of(path: &str) -> Disassemble {
    Disassemble {
        skip_private: false,
        skip_code: false,
        skip_locals: false,
        skip_basic_blocks: false,
        is_script: false,
        bytecode_file_path: path.to_string(),
        code_coverage_path: None,
    }
}

#[test]
fn interactive_step_parses_compile_request() {
    let action = Interactive::interactive_step(Some("compile,--package-dir,/tmp/pkg"));
    match action {
        DispatcherAction::Dispatch(tokens) => {
            assert_eq!(tokens, vec!["", "compile", "--package-dir", "/tmp/pkg"]);
        }
        other => panic!("expected a dispatch, got {:?}", name_of(&other)),
    }
}

#[test]
fn interactive_step_exit_sentinel_terminates() {
    match Interactive::interactive_step(Some("exit")) {
        DispatcherAction::Terminate => {}
        other => panic!("expected termination, got {:?}", name_of(&other)),
    }
    let payload = Interactive::exit_payload();
    assert_eq!(payload, vec!["Exit".to_string()]);
}

#[test]
fn interactive_step_waits_when_no_request_exists() {
    match Interactive::interactive_step(None) {
        DispatcherAction::Wait => {}
        other => panic!("expected a wait, got {:?}", name_of(&other)),
    }
}

fn name_of(a: &DispatcherAction) -> &'static str {
    match a {
        DispatcherAction::Wait => "Wait",
        DispatcherAction::Terminate => "Terminate",
        DispatcherAction::Dispatch(_) => "Dispatch",
    }
}

#[test]
fn interactive_order_path_defaults_to_well_known_directory() {
    let i = Interactive { order_path: None, output_path: None };
    assert_eq!(i.effective_order_path(), "/workspace/order/");
    let i = Interactive { order_path: Some("/elsewhere".to_string()), output_path: None };
    assert_eq!(i.effective_order_path(), "/elsewhere");
}

#[test]
fn wrong_extension_is_caught_before_any_read() {
    match disassemble_of("/tmp/file.txt").check_bytecode_path() {
        BytecodePathCheck::WrongExtension(ext) => assert_eq!(ext, "txt"),
        _ => panic!("expected a wrong-extension verdict"),
    }
}

#[test]
fn bytecode_extension_proceeds() {
    match disassemble_of("/tmp/file.mv").check_bytecode_path() {
        BytecodePathCheck::Proceed => {}
        _ => panic!("expected to proceed"),
    }
}

#[test]
fn missing_extension_is_its_own_verdict() {
    match disassemble_of("/tmp/file").check_bytecode_path() {
        BytecodePathCheck::MissingExtension => {}
        _ => panic!("expected a missing-extension verdict"),
    }
    match disassemble_of("/tmp/.mv").check_bytecode_path() {
        BytecodePathCheck::MissingExtension => {}
        _ => panic!("hidden files have no extension"),
    }
}

#[test]
fn companion_paths_replace_the_extension() {
    let d = disassemble_of("/pkg/out/mod.mv");
    assert_eq!(d.source_code_path(), "/pkg/out/mod.move");
    assert_eq!(d.source_map_path(), "/pkg/out/mod.mvsm");
}

#[test]
fn disassembler_options_invert_the_skip_flags() {
    let mut d = disassemble_of("x.mv");
    d.skip_code = true;
    d.skip_private = true;
    let opts = d.disassembler_options();
    assert!(!opts.print_code);
    assert!(opts.only_externally_visible);
    assert!(opts.print_basic_blocks);
    assert!(opts.print_locals);
}

#[test]
fn todo_command_reports_not_supported() {
    match (TODO {}).execute() {
        Err(CliError::NotSupportedError(_)) => {}
        other => panic!("expected a not-supported failure, got {:?}", other),
    }
    let rendered = (TODO {}).execute_serialized();
    let s = rendered.unwrap_err();
    assert!(s.contains("\"NotSupportedError\""));
    assert_eq!((TODO {}).command_name(), "TODO");
}

#[test]
fn compile_package_derives_build_options() {
    let mut move_options = MovePackageDir::new("/tmp/pkg".to_string());
    move_options.output_dir = Some("/tmp/out".to_string());
    move_options.add_named_address("alice".to_string(), "0x1".to_string());
    let cmd = CompilePackage {
        save_metadata: false,
        included_artifacts_args: IncludedArtifactsArgs {
            included_artifacts: IncludedArtifacts::All,
        },
        move_options,
    };
    let opts = cmd.resolved_build_options();
    assert!(opts.with_srcs && opts.with_abis && opts.with_source_maps && opts.with_error_map);
    assert_eq!(opts.install_dir, Some("/tmp/out".to_string()));
    assert_eq!(opts.bytecode_version, Some(5));
    assert_eq!(opts.named_addresses.len(), 1);
    assert_eq!(opts.named_addresses[0].0, "alice");
    assert_eq!(opts.named_addresses[0].1.as_bytes()[15], 1);
}

#[test]
fn compile_outcome_maps_to_payload_or_compilation_error() {
    let ok = CompilePackage::compile_result(Ok(vec!["0x1::m".to_string()]));
    match ok {
        Ok(aptos_wasm::result::CliPayload::Strings(ids)) => {
            assert_eq!(ids, vec!["0x1::m".to_string()]);
            assert!(!ids.is_empty());
        }
        _ => panic!("expected the module ids"),
    }
    match CompilePackage::compile_result(Err("builder broke".to_string())) {
        Err(CliError::MoveCompilationError(msg)) => assert_eq!(msg, "builder broke"),
        _ => panic!("expected a compilation error"),
    }
}

#[test]
fn compile_scenario_exits_zero_with_module_ids() {
    let typed = CompilePackage::compile_result(Ok(vec!["0x1::coin".to_string()]));
    let rendered = aptos_wasm::utils::to_common_result("CompilePackage", 1, typed);
    assert_eq!(aptos_wasm::result::cli_exit_code(&rendered), 0);
    let body = rendered.unwrap();
    let v: serde_json::Value = serde_json::from_str(&body).unwrap();
    assert!(v["Result"].as_array().map(|a| !a.is_empty()).unwrap_or(false));

    let typed = CompilePackage::compile_result(Err("bad package".to_string()));
    let rendered = aptos_wasm::utils::to_common_result("CompilePackage", 1, typed);
    assert_eq!(aptos_wasm::result::cli_exit_code(&rendered), 1);
    let body = rendered.unwrap_err();
    let v: serde_json::Value = serde_json::from_str(&body).unwrap();
    assert_eq!(v["Error"]["kind"], "MoveCompilationError");
}
