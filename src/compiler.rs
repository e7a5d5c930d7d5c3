//! The command-line compiler: which binary to run, with which flags and
//! ceilings, and how its output becomes an artifact.
use vstd::prelude::*;

use cairo_lang_starknet_classes::casm_contract_class::CasmContractClass;
use cairo_lang_starknet_classes::contract_class::ContractClass;

use crate::errors::CompilationUtilError;
use crate::resource_limits::ResourceLimits;
use crate::text::{decimal_digits, decimal_text};

verus! {

#[verifier::external_type_specification]
#[verifier::external_body]
pub struct ExContractClass(ContractClass);

#[verifier::external_type_specification]
#[verifier::external_body]
pub struct ExCasmContractClass(CasmContractClass);

/// File name of the Sierra-to-CASM compiler binary.
pub const CAIRO_LANG_BINARY_NAME: &'static str = "starknet-sierra-compile";

/// File name of the Sierra-to-native compiler binary.
pub const CAIRO_NATIVE_BINARY_NAME: &'static str = "starknet-native-compile";

/// The default library-function list handed to the CASM compiler. "all" admits
/// every library function: a compatibility default that is due to be narrowed.
pub const DEFAULT_ALLOWED_LIBFUNCS_LIST_NAME: &'static str = "all";

/// Whether `s` starts with the character `c`.
pub open spec fn starts_with(s: Seq<char>, c: char) -> bool {
    s.len() > 0 && s[0] == c
}

/// Whether `s` ends with the character `c`.
pub open spec fn ends_with(s: Seq<char>, c: char) -> bool {
    s.len() > 0 && s[s.len() - 1] == c
}

/// `name` placed in the directory `dir`; an absolute `name` stands for itself.
pub open spec fn spec_binary_path(dir: Seq<char>, name: Seq<char>) -> Seq<char> {
    if starts_with(name, '/') || dir.len() == 0 {
        name
    } else if ends_with(dir, '/') {
        dir + name
    } else {
        dir + seq!['/'] + name
    }
}

/// The path of the binary `name` in the directory `dir`.
pub fn binary_path(dir: &str, name: &str) -> (r: String)
    ensures
        r@ == spec_binary_path(dir@, name@),
{
    let dir_len = dir.unicode_len();
    let name_len = name.unicode_len();
    proof {
        reveal_strlit("/");
    }
    if (name_len > 0 && name.get_char(0) == '/') || dir_len == 0 {
        String::from_str(name)
    } else if dir.get_char(dir_len - 1) == '/' {
        String::from_str(dir).concat(name)
    } else {
        String::from_str(dir).concat("/").concat(name)
    }
}

/// The views of a sequence of strings.
pub open spec fn texts(s: Seq<String>) -> Seq<Seq<char>> {
    s.map_values(|x: String| x@)
}

/// Settings of a compilation.
#[derive(Clone, Debug)]
pub struct SierraCompilationConfig {
    /// Largest CASM bytecode, in felts, that the CASM compiler may produce.
    pub max_casm_bytecode_size: u64,
    /// Where the native compiler binary is, where it is not in the build output directory.
    pub sierra_to_native_compiler_path: Option<String>,
    /// Ceiling, in bytes, on the native artifact.
    pub max_native_bytecode_size: u64,
    /// Ceiling, in seconds, on the native compiler's CPU time.
    pub max_cpu_time: u64,
    /// Ceiling, in bytes, on the native compiler's memory.
    pub max_memory_usage: u64,
    /// Whether a failed native compilation should stop the calling process.
    pub panic_on_compilation_failure: bool,
    /// Optimization level handed to the native compiler.
    pub optimization_level: u8,
    /// The library-function list that the CASM compiler admits; by default
    /// `DEFAULT_ALLOWED_LIBFUNCS_LIST_NAME`.
    pub allowed_libfuncs_list_name: String,
}

/// Runs the compiler binaries; the paths are resolved once, at construction.
#[derive(Clone, Debug)]
pub struct CommandLineCompiler {
    pub config: SierraCompilationConfig,
    pub path_to_starknet_sierra_compile_binary: String,
    pub path_to_starknet_native_compile_binary: String,
}

impl CommandLineCompiler {
    pub open spec fn spec_sierra_binary(&self) -> Seq<char> {
        self.path_to_starknet_sierra_compile_binary@
    }

    pub open spec fn spec_native_binary(&self) -> Seq<char> {
        self.path_to_starknet_native_compile_binary@
    }

    /// Resolves the binaries in `out_dir`, the directory the build put them
    /// in; a configured native compiler path takes precedence.
    pub fn new(config: SierraCompilationConfig, out_dir: &str) -> (r: Self)
        ensures
            r.config == config,
            r.spec_sierra_binary() == spec_binary_path(out_dir@, CAIRO_LANG_BINARY_NAME@),
            r.spec_native_binary() == match config.sierra_to_native_compiler_path {
                Some(p) => p@,
                None => spec_binary_path(out_dir@, CAIRO_NATIVE_BINARY_NAME@),
            },
    {
        let path_to_starknet_sierra_compile_binary = binary_path(out_dir, CAIRO_LANG_BINARY_NAME);
        let path_to_starknet_native_compile_binary = match &config.sierra_to_native_compiler_path {
            Some(path) => path.clone(),
            None => binary_path(out_dir, CAIRO_NATIVE_BINARY_NAME),
        };
        CommandLineCompiler {
            config,
            path_to_starknet_sierra_compile_binary,
            path_to_starknet_native_compile_binary,
        }
    }

    /// The path of the CASM compiler binary.
    pub fn sierra_compile_binary(&self) -> (r: &String)
        ensures
            r@ == self.spec_sierra_binary(),
    {
        &self.path_to_starknet_sierra_compile_binary
    }

    /// The path of the native compiler binary.
    pub fn native_compile_binary(&self) -> (r: &String)
        ensures
            r@ == self.spec_native_binary(),
    {
        &self.path_to_starknet_native_compile_binary
    }

    pub open spec fn spec_casm_args(&self) -> Seq<Seq<char>> {
        seq![
            "--add-pythonic-hints"@,
            "--max-bytecode-size"@,
            decimal_digits(self.config.max_casm_bytecode_size as nat),
            "--allowed-libfuncs-list-name"@,
            self.config.allowed_libfuncs_list_name@,
        ]
    }

    /// The flags that follow the input path on the CASM compiler's command line.
    pub fn casm_args(&self) -> (r: Vec<String>)
        ensures
            texts(r@) == self.spec_casm_args(),
    {
        let mut r: Vec<String> = Vec::new();
        r.push(String::from_str("--add-pythonic-hints"));
        r.push(String::from_str("--max-bytecode-size"));
        r.push(decimal_text(self.config.max_casm_bytecode_size));
        r.push(String::from_str("--allowed-libfuncs-list-name"));
        r.push(self.config.allowed_libfuncs_list_name.clone());
        assert(texts(r@) =~= self.spec_casm_args());
        r
    }

    pub open spec fn spec_casm_limits(&self) -> ResourceLimits {
        ResourceLimits {
            cpu_time: None,
            file_size: Some(self.config.max_casm_bytecode_size),
            memory_size: None,
        }
    }

    /// The CASM compiler runs under an output-size ceiling alone. The ceiling
    /// is the largest bytecode's length in felts, taken as a count of bytes;
    /// the kernel applies it to files that the compiler writes, not to its
    /// standard output when that is a pipe, as it is when the compiler runs
    /// with its output captured.
    pub fn casm_resource_limits(&self) -> (r: ResourceLimits)
        ensures
            r == self.spec_casm_limits(),
    {
        ResourceLimits::new(None, Some(self.config.max_casm_bytecode_size), None)
    }

    pub open spec fn spec_native_args(&self, output_path: Seq<char>) -> Seq<Seq<char>> {
        seq![
            output_path,
            "--opt-level"@,
            decimal_digits(self.config.optimization_level as nat),
        ]
    }

    /// The flags that follow the input path on the native compiler's command
    /// line; `output_path` is where it is to write the artifact.
    pub fn native_args(&self, output_path: &str) -> (r: Vec<String>)
        ensures
            texts(r@) == self.spec_native_args(output_path@),
    {
        let mut r: Vec<String> = Vec::new();
        r.push(String::from_str(output_path));
        r.push(String::from_str("--opt-level"));
        r.push(decimal_text(self.config.optimization_level as u64));
        assert(texts(r@) =~= self.spec_native_args(output_path@));
        r
    }

    pub open spec fn spec_native_limits(&self) -> ResourceLimits {
        ResourceLimits {
            cpu_time: Some(self.config.max_cpu_time),
            file_size: Some(self.config.max_native_bytecode_size),
            memory_size: Some(self.config.max_memory_usage),
        }
    }

    /// The native compiler runs under all three ceilings of the configuration.
    pub fn native_resource_limits(&self) -> (r: ResourceLimits)
        ensures
            r == self.spec_native_limits(),
    {
        ResourceLimits::new(
            Some(self.config.max_cpu_time),
            Some(self.config.max_native_bytecode_size),
            Some(self.config.max_memory_usage),
        )
    }

    /// Whether a failed native compilation is to stop the calling process.
    pub fn panic_on_compilation_failure(&self) -> (r: bool)
        ensures
            r == self.config.panic_on_compilation_failure,
    {
        self.config.panic_on_compilation_failure
    }
}

/// The whole command line after the binary: the input file's path, then `extra`.
pub fn command_args(input_path: &str, extra: Vec<String>) -> (r: Vec<String>)
    ensures
        texts(r@) == seq![input_path@] + texts(extra@),
{
    let mut r: Vec<String> = Vec::new();
    r.push(String::from_str(input_path));
    let mut rest = extra;
    r.append(&mut rest);
    assert(texts(r@) =~= seq![input_path@] + texts(extra@));
    r
}

/// The JSON text that `serde_json` writes for a Sierra contract class;
/// `None` where it reports an error.
pub uninterp spec fn contract_class_json_of(c: ContractClass) -> Option<Seq<char>>;

/// The CASM contract class that `serde_json` reads from the bytes; `None`
/// where it rejects them.
pub uninterp spec fn casm_json_value(b: Seq<u8>) -> Option<CasmContractClass>;

/// Relies on `serde_json::to_string` to write a Sierra contract class as JSON;
/// the text, or the failure, depends on the class alone.
#[verifier::external_body]
fn contract_class_json(contract_class: &ContractClass) -> (r: Result<String, serde_json::Error>)
    ensures
        r.is_ok() == contract_class_json_of(*contract_class).is_some(),
        r matches Ok(s) ==> contract_class_json_of(*contract_class) == Some(s@),
{
    serde_json::to_string(contract_class)
}

/// Relies on `serde_json::from_slice` to read a CASM contract class from JSON;
/// the class, or the failure, depends on the bytes alone.
#[verifier::external_body]
fn casm_from_json(bytes: &[u8]) -> (r: Result<CasmContractClass, serde_json::Error>)
    ensures
        r.is_ok() == casm_json_value(bytes@).is_some(),
        r matches Ok(c) ==> casm_json_value(bytes@) == Some(c),
{
    serde_json::from_slice::<CasmContractClass>(bytes)
}

/// The JSON text that the compiler reads as its input file.
pub fn serialize_input(contract_class: &ContractClass) -> (r: Result<String, CompilationUtilError>)
    ensures
        r.is_ok() == contract_class_json_of(*contract_class).is_some(),
        r matches Ok(s) ==> contract_class_json_of(*contract_class) == Some(s@),
        r matches Err(e) ==> e.is_json_error(),
{
    match contract_class_json(contract_class) {
        Ok(s) => Ok(s),
        Err(e) => Err(CompilationUtilError::JsonError(e)),
    }
}

/// Reads the CASM compiler's standard output as a CASM contract class.
pub fn decode_casm(stdout: &Vec<u8>) -> (r: Result<CasmContractClass, CompilationUtilError>)
    ensures
        r.is_ok() == casm_json_value(stdout@).is_some(),
        r matches Ok(c) ==> casm_json_value(stdout@) == Some(c),
        r matches Err(e) ==> e.is_json_error(),
{
    match casm_from_json(stdout.as_slice()) {
        Ok(c) => Ok(c),
        Err(e) => Err(CompilationUtilError::JsonError(e)),
    }
}

/// The result of a CASM compilation from the outcome of its run: a failed run's
/// error as it is, else the decoded standard output.
pub fn casm_from_outcome(
    outcome: Result<Vec<u8>, CompilationUtilError>,
) -> (r: Result<CasmContractClass, CompilationUtilError>)
    ensures
        outcome matches Err(e) ==> r == Err::<CasmContractClass, CompilationUtilError>(e),
        outcome matches Ok(b) ==> r.is_ok() == casm_json_value(b@).is_some()
            && (r matches Ok(c) ==> casm_json_value(b@) == Some(c))
            && (r matches Err(e) ==> e.is_json_error()),
{
    match outcome {
        Err(e) => Err(e),
        Ok(b) => decode_casm(&b),
    }
}

/// A path as text; a path that is not valid Unicode is an unexpected error.
pub fn output_path_text(path: Option<String>) -> (r: Result<String, CompilationUtilError>)
    ensures
        path matches Some(p) ==> r == Ok::<String, CompilationUtilError>(p),
        path is None ==> (r matches Err(CompilationUtilError::UnexpectedError(m))
            && m@ == "Failed to get output file path"@),
{
    match path {
        Some(p) => Ok(p),
        None => Err(CompilationUtilError::UnexpectedError(
            String::from_str("Failed to get output file path"),
        )),
    }
}

/// The input file's path as text; a path that is not valid Unicode is an
/// unexpected error.
pub fn input_path_text(path: Option<String>) -> (r: Result<String, CompilationUtilError>)
    ensures
        path matches Some(p) ==> r == Ok::<String, CompilationUtilError>(p),
        path is None ==> (r matches Err(CompilationUtilError::UnexpectedError(m))
            && m@ == "Failed to get temporary file path"@),
{
    match path {
        Some(p) => Ok(p),
        None => Err(CompilationUtilError::UnexpectedError(
            String::from_str("Failed to get temporary file path"),
        )),
    }
}

/// The native artifact after a successful run: a run that exited with status
/// zero and left no artifact is an unexpected error.
pub fn require_artifact<T>(loaded: Option<T>) -> (r: Result<T, CompilationUtilError>)
    ensures
        loaded matches Some(a) ==> r == Ok::<T, CompilationUtilError>(a),
        loaded is None ==> (r matches Err(CompilationUtilError::UnexpectedError(m))
            && m@ == "Native artifact missing after a successful compilation"@),
{
    match loaded {
        Some(a) => Ok(a),
        None => Err(CompilationUtilError::UnexpectedError(
            String::from_str("Native artifact missing after a successful compilation"),
        )),
    }
}

} // verus!
