//! What becomes of code on its way through the library, from the text that a client sends
//! to the file that a container compiles, and back from the file that Cargo wrote to the
//! response that the client gets.
use crate::client::{Call, CompilerClient};
use crate::coordinator::commander::one_answer;
use crate::coordinator::compilation::{
    Compilation, CompilationAction, CompilationEvent, CompileResponse as ContainerResponse,
    Preparation, PreparationRequests,
};
use crate::coordinator::error::{CommanderError, CompileError, Error};
use crate::coordinator::manifest::ModifyCargoToml;
use crate::coordinator::message::{ReadFileRequest, ReadFileResponse, WorkerMessage};
use crate::coordinator::output::WithOutput;
use crate::coordinator::request::CompileRequest as ContainerCode;
use crate::coordinator::Coordinator;
use crate::digest;
use crate::service::{AnswerAction, AnswerEvent, Answering};
use crate::{CompileRequest, CompileResponse, CompilerError};
use vstd::prelude::*;

verus! {

/// The code that a client has compiled is the code that is written into the container,
/// character for character, where the cache has no answer.
pub proof fn code_reaches_the_container<T>(
    client: CompilerClient<T>,
    code: &str,
    call: Call,
    begun: (Answering, String),
    missed: (Answering, AnswerAction),
    cargo_toml: ModifyCargoToml,
    container_code: ContainerCode,
    prepared: (Preparation, PreparationRequests),
)
    requires
        call_ensures(CompilerClient::<T>::compile, (&client, code), call),
        call_ensures(Answering::new, (call.request,), begun),
        call_ensures(Answering::advance, (begun.0, AnswerEvent::Missed), missed),
        missed.1 == AnswerAction::Build(container_code),
        call_ensures(Preparation::do_request, (&container_code, &cargo_toml), prepared),
    ensures
        container_code.code@ == code@,
        prepared.1.write_main.path@ == "src/lib.rs"@,
        prepared.1.delete_previous_main.path@ == "src/lib.rs"@,
        vstd::utf8::valid_utf8(prepared.1.write_main.content@),
        vstd::utf8::decode_utf8(prepared.1.write_main.content@) == code@,
{
    vstd::utf8::encode_utf8_valid_utf8(code@);
    vstd::utf8::encode_utf8_decode_utf8(code@);
}

/// A request that the cache has no answer to always has a container asked, and a request is
/// looked up under a key that is the same for the same code, and for other code only where
/// the digests of both are the same.
pub proof fn requests_are_looked_up_by_their_code(
    a: CompileRequest,
    b: CompileRequest,
    begun_a: (Answering, String),
    begun_b: (Answering, String),
    missed: (Answering, AnswerAction),
)
    requires
        call_ensures(Answering::new, (a,), begun_a),
        call_ensures(Answering::new, (b,), begun_b),
        call_ensures(Answering::advance, (begun_a.0, AnswerEvent::Missed), missed),
    ensures
        missed.1 is Build,
        missed.0 is Building,
        a.code@ == b.code@ ==> begun_a.1@ == begun_b.1@,
        begun_a.1@ == begun_b.1@ ==> digest::sha256_digest(vstd::utf8::encode_utf8(a.code@))
            == digest::sha256_digest(vstd::utf8::encode_utf8(b.code@)),
{
    crate::service::keys_tell_digests_apart(a.code@, b.code@);
}

/// The bytes of the file that Cargo wrote are the bytes of the binary that the client gets,
/// and the client gets all that was printed.
pub proof fn binary_reaches_the_client<L, B, P, C, T, U>(
    exit_detail: String,
    request: &ContainerCode,
    file: ReadFileResponse,
    read: Result<ReadFileResponse, CommanderError>,
    action: CompilationAction,
    output: WithOutput<ContainerResponse>,
    answer: Result<WithOutput<ContainerResponse>, CompileError>,
    built: (Answering, AnswerAction),
    reply: Result<CompileResponse, CompilerError>,
    r: Result<CompileResponse, CompilerError>,
)
    requires
        call_ensures(one_answer::<ReadFileRequest>, (WorkerMessage::ReadFile(file),), read),
        call_ensures(
            Compilation::advance,
            (Compilation::Reading { exit_detail }, request, CompilationEvent::OutputRead(read)),
            action,
        ),
        action == CompilationAction::Finish(Ok(output.response)),
        call_ensures(Coordinator::<L, B, P, C, T>::compile, (Ok(Ok(output)),), answer),
        call_ensures(Answering::advance, (Answering::Building, AnswerEvent::Built(answer)), built),
        built.1 == AnswerAction::Conclude(reply),
        call_ensures(CompilerClient::<U>::compiled, (Ok(reply),), r),
    ensures
        output.response.success,
        output.response.exit_detail == exit_detail,
        r matches Ok(response) && {
            &&& response.wasm_binary@ == file.0@
            &&& response.stdout@ == output.stdout@
            &&& response.stderr@ == output.stderr@
        },
{
}

/// A compilation that failed is answered with a compilation error, whatever its cause, and
/// so is one for which there was no container; the client gets that very error. Where the
/// call itself failed, the client gets the text of that failure.
pub proof fn failure_reaches_the_client<L, B, P, C, T, U>(
    container: Result<Result<WithOutput<ContainerResponse>, CompileError>, Error>,
    answer: Result<WithOutput<ContainerResponse>, CompileError>,
    built: (Answering, AnswerAction),
    reply: Result<CompileResponse, CompilerError>,
    r: Result<CompileResponse, CompilerError>,
    lost: String,
    lost_reply: Result<CompileResponse, CompilerError>,
)
    requires
        call_ensures(Coordinator::<L, B, P, C, T>::compile, (container,), answer),
        call_ensures(Answering::advance, (Answering::Building, AnswerEvent::Built(answer)), built),
        built.1 == AnswerAction::Conclude(reply),
        call_ensures(CompilerClient::<U>::compiled, (Ok(reply),), r),
        call_ensures(CompilerClient::<U>::compiled, (Err(lost),), lost_reply),
    ensures
        match container {
            Ok(Ok(_)) => r is Ok,
            Ok(Err(error)) => {
                &&& r matches Err(CompilerError::CompilationError(detail))
                &&& detail@ == "Orchestrator error: "@ + error.shown()
            },
            Err(source) => {
                &&& r matches Err(CompilerError::CompilationError(detail))
                &&& detail@ == "Orchestrator error: "@ + ("CouldNotStartContainer { source: "@
                    + source.shown() + " }"@)
            },
        },
        lost_reply matches Err(CompilerError::IoError(detail)) && detail@ == lost@,
{
    reveal_strlit("CouldNotStartContainer");
    reveal_strlit(" { source: ");
    reveal_strlit("CouldNotStartContainer { source: ");
    assert("CouldNotStartContainer"@ + " { source: "@ =~= "CouldNotStartContainer { source: "@);
}

/// Where the cache has an answer, the client gets it as it is.
pub proof fn found_answer_reaches_the_client<U>(
    request: CompileRequest,
    begun: (Answering, String),
    answer: Result<CompileResponse, CompilerError>,
    found: (Answering, AnswerAction),
    reply: Result<CompileResponse, CompilerError>,
    r: Result<CompileResponse, CompilerError>,
)
    requires
        call_ensures(Answering::new, (request,), begun),
        call_ensures(Answering::advance, (begun.0, AnswerEvent::Found(answer)), found),
        found.1 == AnswerAction::Answer(reply),
        call_ensures(CompilerClient::<U>::compiled, (Ok(reply),), r),
    ensures
        r == answer,
{
}

} // verus!
