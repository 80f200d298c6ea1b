//! The service that compiles code.
use crate::coordinator::compilation;
use crate::coordinator::compilation::{
    Compilation, CompilationAction, CompilationEvent, CompileResponse as ContainerResponse,
};
use crate::coordinator::error::{CommanderError, CompileError};
use crate::coordinator::message::{ExecuteCommandResponse, ReadFileResponse};
use crate::coordinator::output::WithOutput;
use crate::coordinator::request::CompileRequest as ContainerRequest;
use crate::digest;
use crate::digest::sha256_hex;
use crate::text;
use crate::{CompileRequest, CompileResponse, CompilerError};
use moka::future::Cache;
use uuid::Uuid;
use vstd::prelude::*;
use vstd::string::{StrSliceExecFns, StringExecFns};

verus! {

/// How many containers run at once.
pub const CONTAINER_LIMIT: usize = 5;

/// How many processes run at once.
pub const PROCESS_LIMIT: usize = 5;

/// How many responses are cached.
pub const CACHE_CAPACITY: u64 = 10_000;

/// Tells what happens to containers and processes.
#[derive(Debug, Clone)]
pub struct TraceLifecycle;

impl TraceLifecycle {
    /// Someone waits for a container.
    pub fn container_start(&self) -> (line: String)
        ensures
            line@ == "container_start"@,
    {
        "container_start".to_owned()
    }

    /// Someone got a container, or gave up; `how` says which.
    pub fn container_acquired(&self, how: &str) -> (line: String)
        ensures
            line@ == "container_acquired "@ + how@,
    {
        "container_acquired ".to_owned().concat(how)
    }

    /// A container was given back.
    pub fn container_release(&self) -> (line: String)
        ensures
            line@ == "container_release"@,
    {
        "container_release".to_owned()
    }

    /// Someone waits for a process.
    pub fn process_start(&self) -> (line: String)
        ensures
            line@ == "process_start"@,
    {
        "process_start".to_owned()
    }

    /// Someone got a process, or gave up; `how` says which.
    pub fn process_acquired(&self, how: &str) -> (line: String)
        ensures
            line@ == "process_acquired "@ + how@,
    {
        "process_acquired ".to_owned().concat(how)
    }

    /// A process was given back.
    pub fn process_release(&self) -> (line: String)
        ensures
            line@ == "process_release"@,
    {
        "process_release".to_owned()
    }
}

/// `id` is a random UUID: its version is four, and its variant is that of
/// RFC 9562.
pub open spec fn random_uuid(id: u128) -> bool {
    &&& (id >> 76) & 0xf == 4
    &&& (id >> 62) & 0x3 == 2
}

/// Calls `uuid::Uuid::new_v4` and takes its number. Trusted: the number has the
/// version and the variant of a random UUID. The other bits are random, and
/// nothing is said of them. The call panics where the system has no random
/// numbers to give.
#[verifier::external_body]
fn new_uuid() -> (id: u128)
    ensures
        random_uuid(id),
{
    Uuid::new_v4().as_u128()
}

/// A cache that many share.
#[verifier::external_type_specification]
#[verifier::external_body]
#[verifier::reject_recursive_types(K)]
#[verifier::reject_recursive_types(V)]
#[verifier::reject_recursive_types(S)]
pub struct ExCache<K, V, S>(moka::future::Cache<K, V, S>);

/// How many responses a cache was made for.
pub uninterp spec fn cache_capacity(cache: Cache<String, CompileResponse>) -> u64;

/// Calls `moka::future::Cache::new`. Trusted: the cache was made for as many
/// entries as are asked for. What it holds changes while others use it, and
/// nothing is said of that.
#[verifier::external_body]
fn new_cache(max_capacity: u64) -> (cache: Cache<String, CompileResponse>)
    ensures
        cache_capacity(cache) == max_capacity,
{
    Cache::new(max_capacity)
}

/// Calls `clone` of `moka::future::Cache`. Trusted: the new handle is to the same
/// cache.
#[verifier::external_body]
fn share_cache(cache: &Cache<String, CompileResponse>) -> (shared: Cache<String, CompileResponse>)
    ensures
        shared == *cache,
{
    cache.clone()
}

/// The service, which builds coordinators with the factory `F` and keeps its
/// responses in a cache.
pub struct WasmCompilerService<F> {
    /// The number of the UUID of the service.
    pub id: u128,
    pub factory: F,
    pub cache: Cache<String, CompileResponse>,
}

impl<F: Clone> Clone for WasmCompilerService<F> {
    /// The same service, with the same cache.
    fn clone(&self) -> (service: WasmCompilerService<F>)
        ensures
            service.id == self.id,
            cloned(self.factory, service.factory),
            service.cache == self.cache,
    {
        WasmCompilerService {
            id: self.id,
            factory: self.factory.clone(),
            cache: share_cache(&self.cache),
        }
    }
}

/// `response` carries the digest of its binary.
pub open spec fn signed(response: CompileResponse) -> bool {
    response.sha256@ == text::hex(digest::sha256_digest(response.wasm_binary@))
}

/// `response` is what the service responds with when a container answers
/// `answer`.
pub open spec fn responds(
    answer: WithOutput<ContainerResponse>,
    response: CompileResponse,
) -> bool {
    &&& signed(response)
    &&& response.wasm_binary == answer.response.code
    &&& response.stdout == answer.stdout
    &&& response.stderr == answer.stderr
}

/// `r` is what a request is answered for which a container answers `answer`.
pub open spec fn concludes(
    answer: Result<WithOutput<ContainerResponse>, CompileError>,
    r: Result<CompileResponse, CompilerError>,
) -> bool {
    match answer {
        Ok(answer) => r matches Ok(response) && responds(answer, response),
        Err(error) => {
            &&& r matches Err(CompilerError::CompilationError(detail))
            &&& detail@ == "Orchestrator error: "@ + error.shown()
        },
    }
}

/// Under which key the response for `code` is cached.
pub open spec fn cache_key(code: Seq<char>) -> Seq<char> {
    text::hex(digest::sha256_digest(vstd::utf8::encode_utf8(code)))
}

impl<F> WasmCompilerService<F> {
    /// A service with a random number and a cache of its own.
    pub fn new(factory: F) -> (service: WasmCompilerService<F>)
        ensures
            random_uuid(service.id),
            service.factory == factory,
            cache_capacity(service.cache) == CACHE_CAPACITY,
    {
        WasmCompilerService { id: new_uuid(), factory, cache: new_cache(CACHE_CAPACITY) }
    }

    /// Under which key the response to `request` is cached.
    pub fn key(request: &CompileRequest) -> (key: String)
        ensures
            key@ == cache_key(request.code@),
    {
        let code: Vec<u8> = request.code.as_str().as_bytes_vec();
        sha256_hex(code.as_slice())
    }

    /// What a container is asked for where there is no response to `request` in
    /// the cache.
    pub fn container_request(request: &CompileRequest) -> (r: ContainerRequest)
        ensures
            r.code@ == request.code@,
    {
        ContainerRequest { code: request.code.as_str().to_owned() }
    }

    /// The response that follows from the answer of a container, or the error that
    /// tells why there is none.
    pub fn compiled(answer: Result<WithOutput<ContainerResponse>, CompileError>) -> (r: Result<
        CompileResponse,
        CompilerError,
    >)
        ensures
            concludes(answer, r),
    {
        match answer {
            Ok(answer) => {
                let wasm_binary: Vec<u8> = answer.response.code;
                let sha256: String = sha256_hex(wasm_binary.as_slice());
                Ok(
                    CompileResponse {
                        sha256,
                        stdout: answer.stdout,
                        stderr: answer.stderr,
                        wasm_binary,
                    },
                )
            },
            Err(error) => Err(
                CompilerError::CompilationError(
                    "Orchestrator error: ".to_owned().concat(error.show().as_str()),
                ),
            ),
        }
    }
}

/// How far the answer to a request has come.
#[derive(Debug, PartialEq, Eq)]
pub enum Answering {
    /// It is looked up in the cache.
    LookingUp { request: CompileRequest },
    /// A container compiles the code.
    Building,
    /// There is an answer.
    Over,
}

/// What happens to a request.
#[derive(Debug, PartialEq, Eq)]
pub enum AnswerEvent {
    /// The cache has an answer: the one that it keeps, or the one to another request
    /// for the same code that was being compiled.
    Found(Result<CompileResponse, CompilerError>),
    /// The cache has no answer.
    Missed,
    /// The container answered, or it could not.
    Built(Result<WithOutput<ContainerResponse>, CompileError>),
}

/// What is to be done for a request.
#[derive(Debug, PartialEq, Eq)]
pub enum AnswerAction {
    /// Have a container compile the code.
    Build(ContainerRequest),
    /// Answer so.
    Answer(Result<CompileResponse, CompilerError>),
    /// Answer so; the cache is to keep a response, and is not to keep an error.
    Conclude(Result<CompileResponse, CompilerError>),
}

impl Answering {
    /// Whether `event` can happen now.
    pub open spec fn expects(self, event: AnswerEvent) -> bool {
        match self {
            Answering::LookingUp { .. } => event is Found || event is Missed,
            Answering::Building => event is Built,
            Answering::Over => false,
        }
    }

    /// The request after `event`.
    pub open spec fn after(self, event: AnswerEvent) -> Answering {
        match event {
            AnswerEvent::Missed => Answering::Building,
            _ => Answering::Over,
        }
    }

    /// `action` is what is to be done when `event`, which can happen, happens.
    pub open spec fn reaction(self, event: AnswerEvent, action: AnswerAction) -> bool {
        match event {
            AnswerEvent::Found(answer) => action == AnswerAction::Answer(answer),
            AnswerEvent::Missed => {
                &&& action matches AnswerAction::Build(build)
                &&& build.code@ == self->request.code@
            },
            AnswerEvent::Built(answer) => {
                &&& action matches AnswerAction::Conclude(r)
                &&& concludes(answer, r)
            },
        }
    }

    /// Begins to answer a request: it is to be looked up under the key.
    pub fn new(request: CompileRequest) -> (r: (Answering, String))
        ensures
            r.0 == (Answering::LookingUp { request }),
            r.1@ == cache_key(request.code@),
    {
        let key: String = WasmCompilerService::<()>::key(&request);
        (Answering::LookingUp { request }, key)
    }

    /// Takes an event and says what is to be done.
    pub fn advance(self, event: AnswerEvent) -> (r: (Answering, AnswerAction))
        requires
            self.expects(event),
        ensures
            r.0 == self.after(event),
            self.reaction(event, r.1),
            event matches AnswerEvent::Found(answer) ==> r.1 == AnswerAction::Answer(answer),
            event is Missed ==> (r.1 matches AnswerAction::Build(build) && build.code@
                == self->request.code@),
            event matches AnswerEvent::Built(answer) ==> (r.1 matches AnswerAction::Conclude(
                end,
            ) && concludes(answer, end)),
    {
        match (self, event) {
            (Answering::LookingUp { .. }, AnswerEvent::Found(answer)) => {
                (Answering::Over, AnswerAction::Answer(answer))
            },
            (Answering::LookingUp { request }, AnswerEvent::Missed) => {
                let build: ContainerRequest = WasmCompilerService::<()>::container_request(
                    &request,
                );
                (Answering::Building, AnswerAction::Build(build))
            },
            (Answering::Building, AnswerEvent::Built(answer)) => {
                let answer: Result<CompileResponse, CompilerError> =
                    WasmCompilerService::<()>::compiled(answer);
                (Answering::Over, AnswerAction::Conclude(answer))
            },
            (_, _) => vstd::pervasive::unreached(),
        }
    }
}

/// Where the cache has no answer to a request, a container is asked to compile the
/// code of that request, all of it and nothing else.
pub proof fn missed_code_is_compiled_whole(request: CompileRequest, action: AnswerAction)
    requires
        (Answering::LookingUp { request }).reaction(AnswerEvent::Missed, action),
    ensures
        action matches AnswerAction::Build(build) && build.code@ == request.code@,
        (Answering::LookingUp { request }).after(AnswerEvent::Missed) is Building,
{
}

/// Where the cache has an answer to a request, the request is answered with it as it
/// is, whether it is a response or an error, and no container is asked.
pub proof fn found_answer_is_passed_on(
    request: CompileRequest,
    answer: Result<CompileResponse, CompilerError>,
    action: AnswerAction,
)
    requires
        (Answering::LookingUp { request }).reaction(AnswerEvent::Found(answer), action),
    ensures
        action == AnswerAction::Answer(answer),
        (Answering::LookingUp { request }).after(AnswerEvent::Found(answer)) is Over,
{
}

/// What a container answered reaches the one who asked: the bytes of the binary, the
/// output and the error output are those of the container, even where Cargo failed,
/// and the digest is that of those bytes, two digits for each of its bytes. A failure
/// is answered with a compilation error that shows the failure after a fixed prefix.
pub proof fn container_answer_reaches_the_caller(
    answer: Result<WithOutput<ContainerResponse>, CompileError>,
    action: AnswerAction,
)
    requires
        Answering::Building.reaction(AnswerEvent::Built(answer), action),
    ensures
        match answer {
            Ok(output) => {
                &&& action matches AnswerAction::Conclude(Ok(response))
                &&& response.wasm_binary@ == output.response.code@
                &&& response.stdout@ == output.stdout@
                &&& response.stderr@ == output.stderr@
                &&& ({
                    let digest = digest::sha256_digest(output.response.code@);
                    &&& response.sha256@.len() == 2 * digest.len()
                    &&& forall|i: int|
                        0 <= i < digest.len() ==> {
                            &&& response.sha256@[2 * i] == "0123456789abcdef"@[#[trigger] digest[i] as int / 16]
                            &&& response.sha256@[2 * i + 1] == "0123456789abcdef"@[digest[i] as int
                                % 16]
                        }
                })
            },
            Err(error) => {
                &&& action matches AnswerAction::Conclude(
                    Err(CompilerError::CompilationError(detail)),
                )
                &&& detail@ == "Orchestrator error: "@ + error.shown()
            },
        },
        Answering::Building.after(AnswerEvent::Built(answer)) is Over,
{
    match answer {
        Ok(output) => {
            let digest = digest::sha256_digest(output.response.code@);
            text::hex_digits(digest);
            let sha256 = text::hex(digest);
            assert forall|i: int| 0 <= i < digest.len() implies {
                &&& sha256[2 * i] == "0123456789abcdef"@[#[trigger] digest[i] as int / 16]
                &&& sha256[2 * i + 1] == "0123456789abcdef"@[digest[i] as int % 16]
            } by {
                text::hex_of_each_byte(digest, i);
            }
        },
        Err(_) => {},
    }
}

/// A request is looked up under the digest of the bytes of its whole code, two digits
/// for each byte of the digest.
pub proof fn key_is_the_digest_of_the_code(code: Seq<char>)
    ensures
        ({
            let digest = digest::sha256_digest(vstd::utf8::encode_utf8(code));
            &&& cache_key(code).len() == 2 * digest.len()
            &&& forall|i: int|
                0 <= i < digest.len() ==> {
                    &&& cache_key(code)[2 * i] == "0123456789abcdef"@[#[trigger] digest[i] as int / 16]
                    &&& cache_key(code)[2 * i + 1] == "0123456789abcdef"@[digest[i] as int % 16]
                }
        }),
{
    let digest = digest::sha256_digest(vstd::utf8::encode_utf8(code));
    text::hex_digits(digest);
    assert forall|i: int| 0 <= i < digest.len() implies {
        &&& cache_key(code)[2 * i] == "0123456789abcdef"@[#[trigger] digest[i] as int / 16]
        &&& cache_key(code)[2 * i + 1] == "0123456789abcdef"@[digest[i] as int % 16]
    } by {
        text::hex_of_each_byte(digest, i);
    }
}

/// Two pieces of code share a key exactly when the digests of their bytes are
/// the same; the same code always has the same key.
pub proof fn keys_tell_digests_apart(a: Seq<char>, b: Seq<char>)
    ensures
        cache_key(a) == cache_key(b) <==> digest::sha256_digest(vstd::utf8::encode_utf8(a))
            == digest::sha256_digest(vstd::utf8::encode_utf8(b)),
        a == b ==> cache_key(a) == cache_key(b),
{
    if cache_key(a) == cache_key(b) {
        text::hex_is_injective(
            digest::sha256_digest(vstd::utf8::encode_utf8(a)),
            digest::sha256_digest(vstd::utf8::encode_utf8(b)),
        );
    }
}

/// The binary of a response is the file that Cargo wrote where Cargo succeeded,
/// and else it is empty; in both cases the response carries its digest.
pub proof fn response_holds_what_cargo_wrote(
    ended: ExecuteCommandResponse,
    first: CompilationAction,
    read: Result<ReadFileResponse, CommanderError>,
    second: CompilationAction,
    answer: WithOutput<ContainerResponse>,
    response: CompileResponse,
)
    requires
        Compilation::Running.reaction(CompilationEvent::CargoEnded(Ok(Ok(ended))), first),
        first matches CompilationAction::Read(next, _) ==> next.reaction(
            CompilationEvent::OutputRead(read),
            second,
        ),
        CompilationAction::Finish(Ok(answer.response)) == if first is Read {
            second
        } else {
            first
        },
        responds(answer, response),
    ensures
        ended.success ==> (read matches Ok(file) && response.wasm_binary == file.0),
        !ended.success ==> response.wasm_binary@.len() == 0,
        signed(response),
{
    compilation::response_tells_how_cargo_ended(ended, first, read, second);
}

/// What is told of a container or a process tells the whole of how it came about.
pub proof fn traces_tell_how(
    trace: TraceLifecycle,
    how: &str,
    of_container: String,
    of_process: String,
)
    requires
        call_ensures(TraceLifecycle::container_acquired, (&trace, how), of_container),
        call_ensures(TraceLifecycle::process_acquired, (&trace, how), of_process),
    ensures
        of_container@ == "container_acquired "@ + how@,
        of_process@ == "process_acquired "@ + how@,
{
}

} // verus!
