//! What can be asked of a coordinator.
use crate::coordinator::manifest;
use crate::coordinator::manifest::{set_crate_type, set_release_lto};
use crate::coordinator::message::{
    DeleteFileRequest, ExecuteCommandRequest, ReadFileRequest, WriteFileRequest,
};
use crate::text;
use std::collections::HashMap;
use vstd::prelude::*;
use vstd::string::StrSliceExecFns;

verus! {

/// Where the code to compile stands in a container.
pub const PRIMARY_PATH: &'static str = "src/lib.rs";

/// The crate type that code is compiled to.
pub const CARGO_TOML_KEY: &'static str = "cdylib";

/// Asks for code to be compiled.
#[derive(Debug, Clone, PartialEq, Eq)]
pub struct CompileRequest {
    pub code: String,
}

impl CompileRequest {
    /// Where the compiled code stands in a container.
    pub const OUTPUT_PATH: &'static str = "compilation";

    /// Asks the worker for the compiled code.
    pub fn read_output_request(&self) -> (request: ReadFileRequest)
        ensures
            request.path@ == Self::OUTPUT_PATH@,
    {
        ReadFileRequest { path: Self::OUTPUT_PATH.to_owned() }
    }

    /// Asks the worker to delete the code of the previous request.
    pub fn delete_previous_main_request(&self) -> (request: DeleteFileRequest)
        ensures
            request.path@ == PRIMARY_PATH@,
    {
        delete_previous_primary_file_request()
    }

    /// Asks the worker to write the code.
    pub fn write_main_request(&self) -> (request: WriteFileRequest)
        ensures
            request.path@ == PRIMARY_PATH@,
            request.content@ == vstd::utf8::encode_utf8(self.code@),
    {
        write_primary_file_request(self.code.as_str())
    }

    /// Asks the worker to run Cargo.
    pub fn execute_cargo_request(&self) -> (request: ExecuteCommandRequest)
        ensures
            request.cmd@ == "cargo"@,
            text::texts(request.args@) == seq![
                "wasm"@,
                "--release"@,
                "-o"@,
                Self::OUTPUT_PATH@,
            ],
            request.envs@ == Map::<String, String>::empty(),
            request.cwd is None,
    {
        let mut args: Vec<String> = Vec::new();
        args.push("wasm".to_owned());
        args.push("--release".to_owned());
        args.push("-o".to_owned());
        args.push(Self::OUTPUT_PATH.to_owned());
        assert(text::texts(args@) =~= seq!["wasm"@, "--release"@, "-o"@, Self::OUTPUT_PATH@]);
        ExecuteCommandRequest { cmd: "cargo".to_owned(), args, envs: HashMap::new(), cwd: None }
    }

    /// The manifest with which the code is compiled.
    pub fn modify_cargo_toml(&self, cargo_toml: toml::Value) -> (r: toml::Value)
        ensures
            manifest::value_contents(r) == manifest::manifest_for_compilation(
                manifest::value_contents(cargo_toml),
            ),
    {
        let cargo_toml: toml::Value = set_crate_type(cargo_toml, CARGO_TOML_KEY);
        set_release_lto(cargo_toml, true)
    }
}

/// Asks the worker to write `code` where the code to compile stands.
pub fn write_primary_file_request(code: &str) -> (request: WriteFileRequest)
    ensures
        request.path@ == PRIMARY_PATH@,
        request.content@ == vstd::utf8::encode_utf8(code@),
{
    WriteFileRequest { path: PRIMARY_PATH.to_owned(), content: code.as_bytes_vec() }
}

/// Asks the worker to delete the code to compile.
pub fn delete_previous_primary_file_request() -> (request: DeleteFileRequest)
    ensures
        request.path@ == PRIMARY_PATH@,
{
    DeleteFileRequest { path: PRIMARY_PATH.to_owned() }
}

} // verus!
