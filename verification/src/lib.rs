//! A service that compiles Rust code to WASM inside containers.
use crate::connection::{compiler_names, ConnectError, Connector};
use vstd::prelude::*;
use vstd::string::StringExecFns;

pub mod caching;
pub mod client;
pub mod connection;
pub mod coordinator;
pub mod digest;
pub mod passage;
pub mod plugin;
pub mod service;
pub mod text;

verus! {

/// Why code was not compiled.
#[derive(Debug, Clone, PartialEq, Eq)]
pub enum CompilerError {
    MissingCode,
    IoError(String),
    CompilationError(String),
    ReadError(String),
}

impl CompilerError {
    /// The text of the error.
    pub open spec fn text(self) -> Seq<char> {
        match self {
            CompilerError::MissingCode => "Missing Code"@,
            CompilerError::IoError(detail) => "Io Error: "@ + detail@,
            CompilerError::CompilationError(detail) => "Compilation Error: "@ + detail@,
            CompilerError::ReadError(detail) => "Read Error: "@ + detail@,
        }
    }

    /// The text of the error.
    pub fn message(&self) -> (r: String)
        ensures
            r@ == self.text(),
    {
        match self {
            CompilerError::MissingCode => "Missing Code".to_owned(),
            CompilerError::IoError(detail) => "Io Error: ".to_owned().concat(detail.as_str()),
            CompilerError::CompilationError(detail) => "Compilation Error: ".to_owned().concat(
                detail.as_str(),
            ),
            CompilerError::ReadError(detail) => "Read Error: ".to_owned().concat(detail.as_str()),
        }
    }
}

/// An error of input or output.
#[verifier::external_type_specification]
#[verifier::external_body]
pub struct ExIoError(std::io::Error);

impl From<std::io::Error> for CompilerError {
    fn from(error: std::io::Error) -> (r: CompilerError)
        ensures
            r matches CompilerError::IoError(detail)
                && vstd::string::to_string_from_display_ensures(&error, detail),
    {
        CompilerError::IoError(error.to_string())
    }
}

impl vstd::std_specs::convert::FromSpecImpl<std::io::Error> for CompilerError {
    open spec fn obeys_from_spec() -> bool {
        false
    }

    open spec fn from_spec(error: std::io::Error) -> CompilerError {
        vstd::pervasive::arbitrary()
    }
}

/// Compiled code.
#[derive(Debug, Clone, PartialEq, Eq)]
pub struct CompileResponse {
    /// The SHA-256 digest of the binary, in hexadecimal.
    pub sha256: String,
    pub stdout: String,
    pub stderr: String,
    pub wasm_binary: Vec<u8>,
}

/// Code to compile.
#[derive(Debug, Clone, PartialEq, Eq)]
pub struct CompileRequest {
    pub code: String,
}

/// The compilers to connect to: `variable` is what the environment variable
/// `COMPILER` holds, if it is set.
pub fn connect_env(variable: Option<&str>) -> (r: Result<Vec<String>, ConnectError>)
    ensures
        match variable {
            Some(list) => {
                &&& r matches Ok(names)
                &&& text::texts(names@) == connection::compilers(list@)
            },
            None => r == Err::<Vec<String>, _>(ConnectError::NotConfigured),
        },
{
    match variable {
        Some(list) => Ok(compiler_names(list)),
        None => Err(ConnectError::NotConfigured),
    }
}

/// Begins to connect to one compiler.
pub fn connect<A>(compiler_addr_str: &str) -> (connector: Connector<A>)
    ensures
        connector@ is Parsing,
        connector.name() == compiler_addr_str@,
{
    Connector::new(compiler_addr_str)
}

/// The text of an error tells the whole of its detail, behind the kind of the error.
pub proof fn compiler_errors_tell_their_detail(detail: String)
    ensures
        CompilerError::IoError(detail).text() == "Io Error: "@ + detail@,
        CompilerError::CompilationError(detail).text() == "Compilation Error: "@ + detail@,
        CompilerError::ReadError(detail).text() == "Read Error: "@ + detail@,
        CompilerError::MissingCode.text() == "Missing Code"@,
{
}

/// The compilers that are connected to are those of the environment variable, where it is
/// set, and where it is not that is told; each is looked for under its own name.
pub proof fn compilers_come_from_the_environment<A>(
    variable: Option<&str>,
    r: Result<Vec<String>, ConnectError>,
    name: &str,
    connector: Connector<A>,
)
    requires
        call_ensures(connect_env, (variable,), r),
        call_ensures(connect::<A>, (name,), connector),
    ensures
        variable is None ==> r == Err::<Vec<String>, _>(ConnectError::NotConfigured),
        variable matches Some(list) ==> (r matches Ok(names) && text::texts(names@)
            == connection::compilers(list@)),
        connector.name() == name@,
        connector@ is Parsing,
{
}

} // verus!
