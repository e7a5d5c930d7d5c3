use cairo_lang_starknet_classes::casm_contract_class::CasmContractClass;
use cairo_lang_starknet_classes::contract_class::ContractClass;
use sierra_multicompile::compiler::{
    binary_path, casm_from_outcome, command_args, decode_casm, input_path_text,
    output_path_text, require_artifact, serialize_input, CommandLineCompiler,
    SierraCompilationConfig, DEFAULT_ALLOWED_LIBFUNCS_LIST_NAME,
};
use sierra_multicompile::diagnosis::{process_outcome, ProcessStatus, SignalSemantics};
use sierra_multicompile::errors::CompilationUtilError;
use sierra_multicompile::resource_limits::{LimitSetting, LimitedResource, ResourceLimits};

const CASM_JSON: &str = r#"{"prime":"0x800000000000011000000000000000000000000000000000000000000000001","compiler_version":"2.21.0","bytecode":["0x1","0x2a"],"hints":[],"entry_points_by_type":{"EXTERNAL":[],"L1_HANDLER":[],"CONSTRUCTOR":[]}}"#;

fn config(native_path: Option<String>) -> SierraCompilationConfig {
    SierraCompilationConfig {
        max_casm_bytecode_size: 81920,
        sierra_to_native_compiler_path: native_path,
        max_native_bytecode_size: 15728640,
        max_cpu_time: 20,
        max_memory_usage: 5368709120,
        panic_on_compilation_failure: true,
        optimization_level: 2,
        allowed_libfuncs_list_name: DEFAULT_ALLOWED_LIBFUNCS_LIST_NAME.to_string(),
    }
}

fn strings(v: &[&str]) -> Vec<String> {
    v.iter().map(|s| s.to_string()).collect()
}

#[test]
fn binary_path_joins() {
    assert_eq!(binary_path("/out", "tool"), "/out/tool");
    assert_eq!(binary_path("/out/", "tool"), "/out/tool");
    assert_eq!(binary_path("", "tool"), "tool");
    assert_eq!(binary_path("/out", "/usr/bin/tool"), "/usr/bin/tool");
}

#[test]
fn new_resolves_binaries_in_out_dir() {
    let c = CommandLineCompiler::new(config(None), "/build/out");
    assert_eq!(c.sierra_compile_binary(), "/build/out/starknet-sierra-compile");
    assert_eq!(c.native_compile_binary(), "/build/out/starknet-native-compile");
    assert!(c.panic_on_compilation_failure());
}

#[test]
fn new_prefers_configured_native_path() {
    let c = CommandLineCompiler::new(config(Some("/opt/native".to_string())), "/build/out");
    assert_eq!(c.sierra_compile_binary(), "/build/out/starknet-sierra-compile");
    assert_eq!(c.native_compile_binary(), "/opt/native");
}

#[test]
fn casm_flags_and_limits() {
    let c = CommandLineCompiler::new(config(None), "/out");
    assert_eq!(
        c.casm_args(),
        strings(&[
            "--add-pythonic-hints",
            "--max-bytecode-size",
            "81920",
            "--allowed-libfuncs-list-name",
            "all"
        ])
    );
    assert_eq!(c.casm_resource_limits(), ResourceLimits::new(None, Some(81920), None));
}

#[test]
fn casm_flags_follow_configured_libfunc_list() {
    let mut cfg = config(None);
    cfg.allowed_libfuncs_list_name = "audited".to_string();
    cfg.max_casm_bytecode_size = 0;
    let c = CommandLineCompiler::new(cfg, "/out");
    assert_eq!(
        c.casm_args(),
        strings(&[
            "--add-pythonic-hints",
            "--max-bytecode-size",
            "0",
            "--allowed-libfuncs-list-name",
            "audited"
        ])
    );
}

#[test]
fn native_flags_and_limits() {
    let c = CommandLineCompiler::new(config(None), "/out");
    assert_eq!(c.native_args("/tmp/out.so"), strings(&["/tmp/out.so", "--opt-level", "2"]));
    let limits = c.native_resource_limits();
    assert_eq!(limits, ResourceLimits::new(Some(20), Some(15728640), Some(5368709120)));
    assert_eq!(
        limits.settings(),
        vec![
            LimitSetting { resource: LimitedResource::CpuTime, value: 20 },
            LimitSetting { resource: LimitedResource::FileSize, value: 15728640 },
            LimitSetting { resource: LimitedResource::AddressSpace, value: 5368709120 },
        ]
    );
}

#[test]
fn settings_skip_absent_ceilings() {
    assert_eq!(ResourceLimits::new(None, None, None).settings(), vec![]);
    assert_eq!(
        ResourceLimits::new(None, Some(100), None).settings(),
        vec![LimitSetting { resource: LimitedResource::FileSize, value: 100 }]
    );
    assert_eq!(
        ResourceLimits::new(Some(1), None, Some(3)).settings(),
        vec![
            LimitSetting { resource: LimitedResource::CpuTime, value: 1 },
            LimitSetting { resource: LimitedResource::AddressSpace, value: 3 },
        ]
    );
}

#[test]
fn command_line_starts_with_input_path() {
    assert_eq!(
        command_args("/tmp/in.json", strings(&["--opt-level", "3"])),
        strings(&["/tmp/in.json", "--opt-level", "3"])
    );
    assert_eq!(command_args("/tmp/in.json", vec![]), strings(&["/tmp/in.json"]));
}

#[test]
fn echoed_output_decodes_to_the_input() {
    let input: CasmContractClass = serde_json::from_str(CASM_JSON).unwrap();
    let echoed = serde_json::to_vec(&input).unwrap();
    let status = ProcessStatus { success: true, signal: None };
    let outcome = process_outcome(SignalSemantics::Posix, status, "exit status: 0", echoed, vec![]);
    let artifact = casm_from_outcome(outcome).unwrap();
    assert_eq!(artifact, input);
    assert_eq!(artifact.bytecode.len(), 2);
}

#[test]
fn undecodable_output_is_a_json_error() {
    assert!(matches!(decode_casm(&b"not json".to_vec()), Err(CompilationUtilError::JsonError(_))));
    assert!(matches!(decode_casm(&b"{}".to_vec()), Err(CompilationUtilError::JsonError(_))));
    let expected: CasmContractClass = serde_json::from_str(CASM_JSON).unwrap();
    assert_eq!(decode_casm(&CASM_JSON.as_bytes().to_vec()).unwrap(), expected);
}

#[test]
fn failed_run_error_passes_through() {
    let outcome = Err(CompilationUtilError::CompilationError("boom".to_string()));
    match casm_from_outcome(outcome) {
        Err(CompilationUtilError::CompilationError(m)) => assert_eq!(m, "boom"),
        other => panic!("unexpected {:?}", other),
    }
}

#[test]
fn input_serializes_as_json() {
    let class = ContractClass {
        sierra_program: vec![],
        sierra_program_debug_info: None,
        contract_class_version: "0.1.0".to_string(),
        entry_points_by_type: Default::default(),
        abi: None,
    };
    let text = serialize_input(&class).unwrap();
    assert_eq!(text, serde_json::to_string(&class).unwrap());
    let back: ContractClass = serde_json::from_str(&text).unwrap();
    assert_eq!(back, class);
    assert!(text.contains("\"contract_class_version\":\"0.1.0\""));
}

#[test]
fn missing_output_path_and_artifact() {
    assert_eq!(output_path_text(Some("/tmp/x".to_string())).unwrap(), "/tmp/x");
    assert_eq!(input_path_text(Some("/tmp/in".to_string())).unwrap(), "/tmp/in");
    match input_path_text(None) {
        Err(CompilationUtilError::UnexpectedError(m)) => {
            assert_eq!(m, "Failed to get temporary file path")
        }
        other => panic!("unexpected {:?}", other),
    }
    match output_path_text(None) {
        Err(CompilationUtilError::UnexpectedError(m)) => assert_eq!(m, "Failed to get output file path"),
        other => panic!("unexpected {:?}", other),
    }
    assert_eq!(require_artifact(Some(5u8)).unwrap(), 5);
    match require_artifact::<u8>(None) {
        Err(CompilationUtilError::UnexpectedError(m)) => {
            assert_eq!(m, "Native artifact missing after a successful compilation")
        }
        other => panic!("unexpected {:?}", other),
    }
}

#[test]
fn error_message_accessor() {
    let e = CompilationUtilError::IoError("disk full".to_string());
    assert_eq!(e.message().unwrap(), "disk full");
    let j = decode_casm(&b"x".to_vec()).unwrap_err();
    assert!(j.message().is_none());
}
