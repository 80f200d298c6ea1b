use service_compiler::client::{CompilerClient, COMPILE_DEADLINE_SECS};
use service_compiler::connection::{
    all_connected, compiler_names, ConnectAction, ConnectError, ConnectEvent, Connector,
};
use service_compiler::coordinator::compilation::CompileResponse as ContainerResponse;
use service_compiler::coordinator::error::{
    CommanderError, CompileError, DoRequestError, Error, MultiplexedSenderError, OutsideError,
    SpawnCargoError, TerminateContainerError,
};
use service_compiler::coordinator::manifest::ModifyCargoTomlError;
use service_compiler::coordinator::message::SerializedError2;
use service_compiler::coordinator::output::WithOutput;
use service_compiler::digest::sha256_hex;
use service_compiler::service::{
    AnswerAction, AnswerEvent, Answering, TraceLifecycle, WasmCompilerService, CACHE_CAPACITY, CONTAINER_LIMIT, PROCESS_LIMIT,
};
use service_compiler::{connect, connect_env, CompileRequest, CompileResponse, CompilerError};

type Service = WasmCompilerService<u8>;

#[test]
fn service_has_a_random_uuid() {
    let service: Service = WasmCompilerService::new(1);
    let id = uuid::Uuid::from_u128(service.id);
    assert_eq!(id.get_version_num(), 4);
    assert_eq!(id.get_variant(), uuid::Variant::RFC4122);
    assert_eq!(service.factory, 1);
    assert_eq!(service.cache.policy().max_capacity(), Some(10_000));
    assert_eq!(service.clone().id, service.id);
    let other: Service = WasmCompilerService::new(1);
    assert_ne!(service.id, other.id);
    assert_eq!((CONTAINER_LIMIT, PROCESS_LIMIT, CACHE_CAPACITY), (5, 5, 10_000));
}

#[test]
fn responses_are_cached_by_the_digest_of_the_code() {
    let request = CompileRequest { code: "abc".to_owned() };
    assert_eq!(
        Service::key(&request),
        "ba7816bf8f01cfea414140de5dae2223b00361a396177a9cb410ff61f20015ad"
    );
    let other = CompileRequest { code: "abd".to_owned() };
    assert_ne!(Service::key(&request), Service::key(&other));
    assert_eq!(Service::key(&request), Service::key(&request.clone()));
    assert_eq!(Service::container_request(&request).code, "abc");
}

#[test]
fn response_carries_the_digest_of_the_binary() {
    let answer = WithOutput {
        response: ContainerResponse {
            success: true,
            exit_detail: String::new(),
            code: b"abc".to_vec(),
        },
        stdout: "o".to_owned(),
        stderr: "e".to_owned(),
    };
    assert_eq!(
        Service::compiled(Ok(answer)),
        Ok(CompileResponse {
            sha256: sha256_hex(b"abc"),
            stdout: "o".to_owned(),
            stderr: "e".to_owned(),
            wasm_binary: b"abc".to_vec(),
        })
    );
}

#[test]
fn failed_run_of_cargo_is_a_response_without_a_binary() {
    let answer = WithOutput {
        response: ContainerResponse {
            success: false,
            exit_detail: "exit 101".to_owned(),
            code: Vec::new(),
        },
        stdout: String::new(),
        stderr: "error".to_owned(),
    };
    let response = Service::compiled(Ok(answer)).unwrap();
    assert!(response.wasm_binary.is_empty());
    assert_eq!(response.stderr, "error");
    assert_eq!(response.sha256, sha256_hex(b""));
}

fn outside(debug: &str) -> OutsideError {
    OutsideError { text: "told".to_owned(), debug: debug.to_owned() }
}

fn told(error: CompileError) -> String {
    match Service::compiled(Err(error)) {
        Err(CompilerError::CompilationError(detail)) => detail,
        other => panic!("{other:?}"),
    }
}

#[test]
fn container_error_is_a_compilation_error() {
    let source = SpawnCargoError::UnexpectedEndOfMessages;
    let error = Service::compiled(Err(CompileError::CargoFailed { source })).unwrap_err();
    let detail = "Orchestrator error: CargoFailed { source: UnexpectedEndOfMessages }";
    assert_eq!(error, CompilerError::CompilationError(detail.to_owned()));
    assert_eq!(error.message(), format!("Compilation Error: {detail}"));
}

#[test]
fn container_errors_are_shown_with_their_sources() {
    let source = Error::SpawnWorker { source: outside("Os { code: 2 }") };
    assert_eq!(
        told(CompileError::CouldNotStartContainer { source }),
        "Orchestrator error: CouldNotStartContainer { source: SpawnWorker { source: \
         Os { code: 2 } } }"
    );
    let source = Error::KillWorker {
        source: TerminateContainerError { name: "a\"b".to_owned(), source: outside("E") },
    };
    assert_eq!(
        told(CompileError::CouldNotStartContainer { source }),
        "Orchestrator error: CouldNotStartContainer { source: KillWorker { source: \
         TerminateContainerError { name: \"a\\\"b\", source: E } } }"
    );
    let source = MultiplexedSenderError { source: outside("SendError { .. }") };
    let source = CommanderError::UnableToStartOne { source };
    assert_eq!(
        told(CompileError::CouldNotReadCode { source }),
        "Orchestrator error: CouldNotReadCode { source: UnableToStartOne { source: \
         MultiplexedSenderError { source: SendError { .. } } } }"
    );
    let source = DoRequestError::CouldNotModifyCargoToml {
        source: ModifyCargoTomlError::CouldNotWrite {
            source: CommanderError::DuplicateDemultiplexerClient { job_id: 12 },
        },
    };
    assert_eq!(
        told(CompileError::DoRequest { source }),
        "Orchestrator error: DoRequest { source: CouldNotModifyCargoToml { source: \
         CouldNotWrite { source: DuplicateDemultiplexerClient { job_id: 12 } } } }"
    );
    let source = SerializedError2 {
        message: "m".to_owned(),
        causes: vec!["c\n".to_owned(), "d".to_owned()],
    };
    assert_eq!(
        told(CompileError::CargoFailed { source: SpawnCargoError::Worker { source } }),
        "Orchestrator error: CargoFailed { source: Worker { source: SerializedError2 { \
         message: \"m\", source: Some(SerializedError2 { message: \"c\\n\", source: \
         Some(SerializedError2 { message: \"d\", source: None }) }) } } }"
    );
    let source = SpawnCargoError::UnexpectedMessage { message: "WriteFile".to_owned() };
    assert_eq!(
        told(CompileError::CargoFailed { source }),
        "Orchestrator error: CargoFailed { source: UnexpectedMessage { message: \
         \"WriteFile\" } }"
    );
}

#[test]
fn kept_answer_is_given_without_a_container() {
    let response = CompileResponse {
        sha256: String::new(),
        stdout: String::new(),
        stderr: String::new(),
        wasm_binary: vec![1],
    };
    let (answering, key) = Answering::new(CompileRequest { code: "abc".to_owned() });
    assert_eq!(key, sha256_hex(b"abc"));
    let (answering, action) = answering.advance(AnswerEvent::Found(Ok(response.clone())));
    assert_eq!(answering, Answering::Over);
    assert_eq!(action, AnswerAction::Answer(Ok(response)));
}

/// Answers a request with the cache of the service; `built` is what a container
/// would answer. Tells with the answer whether a container was asked.
fn answer(
    service: &Service,
    code: &str,
    built: Result<WithOutput<ContainerResponse>, CompileError>,
) -> (Result<CompileResponse, CompilerError>, bool) {
    let (answering, key) = Answering::new(CompileRequest { code: code.to_owned() });
    let mut answering = Some(answering);
    let runtime = tokio::runtime::Builder::new_current_thread().build().unwrap();
    let found = runtime.block_on(service.cache.try_get_with(key, async {
        let (building, _) = answering.take().unwrap().advance(AnswerEvent::Missed);
        match building.advance(AnswerEvent::Built(built)).1 {
            AnswerAction::Conclude(answer) => answer,
            other => panic!("{other:?}"),
        }
    }));
    let found = found.map_err(|error| (*error).clone());
    match answering {
        Some(answering) => match answering.advance(AnswerEvent::Found(found)).1 {
            AnswerAction::Answer(answer) => (answer, false),
            other => panic!("{other:?}"),
        },
        None => (found, true),
    }
}

fn container_answer(code: &[u8]) -> WithOutput<ContainerResponse> {
    let response = ContainerResponse {
        success: true,
        exit_detail: String::new(),
        code: code.to_vec(),
    };
    WithOutput { response, stdout: String::new(), stderr: String::new() }
}

#[test]
fn response_is_kept_for_the_same_code_alone() {
    let service: Service = WasmCompilerService::new(1);
    let (first, asked) = answer(&service, "a", Ok(container_answer(b"1")));
    assert!(asked);
    assert_eq!(first.clone().unwrap().wasm_binary, b"1".to_vec());
    // A clone of the service has the same cache.
    let (again, asked) = answer(&service.clone(), "a", Ok(container_answer(b"2")));
    assert!(!asked);
    assert_eq!(again, first);
    let (other, asked) = answer(&service, "b", Ok(container_answer(b"3")));
    assert!(asked);
    assert_eq!(other.unwrap().wasm_binary, b"3".to_vec());
}

#[test]
fn failure_is_not_kept() {
    let service: Service = WasmCompilerService::new(1);
    let source = SpawnCargoError::UnexpectedEndOfMessages;
    let (failed, asked) = answer(&service, "a", Err(CompileError::CargoFailed { source }));
    assert!(asked);
    assert!(matches!(failed, Err(CompilerError::CompilationError(_))));
    let (second, asked) = answer(&service, "a", Ok(container_answer(b"1")));
    assert!(asked);
    assert!(second.is_ok());
}

#[test]
fn request_after_a_dropped_one_is_compiled() {
    let service: Service = WasmCompilerService::new(1);
    let (answering, key) = Answering::new(CompileRequest { code: "a".to_owned() });
    let runtime = tokio::runtime::Builder::new_current_thread().enable_time().build().unwrap();
    let dropped = runtime.block_on(async {
        let compiled = service.cache.try_get_with(key, async {
            let (_building, _) = answering.advance(AnswerEvent::Missed);
            std::future::pending::<Result<CompileResponse, CompilerError>>().await
        });
        tokio::time::timeout(std::time::Duration::from_millis(1), compiled).await
    });
    assert!(dropped.is_err());
    let (second, asked) = answer(&service, "a", Ok(container_answer(b"1")));
    assert!(asked);
    assert!(second.is_ok());
}

#[test]
fn requests_at_once_share_one_compilation() {
    let service: Service = WasmCompilerService::new(1);
    let runtime = tokio::runtime::Builder::new_current_thread().build().unwrap();
    let builds = std::cell::Cell::new(0);
    let ask = || {
        let (answering, key) = Answering::new(CompileRequest { code: "a".to_owned() });
        let (cache, builds) = (&service.cache, &builds);
        async move {
            let mut answering = Some(answering);
            let found = cache
                .try_get_with(key, async {
                    builds.set(builds.get() + 1);
                    let (building, _) = answering.take().unwrap().advance(AnswerEvent::Missed);
                    tokio::task::yield_now().await;
                    let source = SpawnCargoError::UnexpectedEndOfMessages;
                    let built = Err(CompileError::CargoFailed { source });
                    match building.advance(AnswerEvent::Built(built)).1 {
                        AnswerAction::Conclude(answer) => answer,
                        other => panic!("{other:?}"),
                    }
                })
                .await;
            found.map_err(|error| (*error).clone())
        }
    };
    let (first, second) = runtime.block_on(futures::future::join(ask(), ask()));
    assert_eq!(builds.get(), 1);
    assert!(first.is_err());
    assert_eq!(first, second);
}

#[test]
fn missing_answer_is_built() {
    let (answering, _) = Answering::new(CompileRequest { code: "abc".to_owned() });
    let (answering, action) = answering.advance(AnswerEvent::Missed);
    match action {
        AnswerAction::Build(request) => assert_eq!(request.code, "abc"),
        other => panic!("{other:?}"),
    }
    let source = SpawnCargoError::UnexpectedEndOfMessages;
    let failed = AnswerEvent::Built(Err(CompileError::CargoFailed { source }));
    match answering.advance(failed).1 {
        AnswerAction::Conclude(Err(CompilerError::CompilationError(_))) => {}
        other => panic!("{other:?}"),
    }
}

#[test]
fn errors_have_texts() {
    assert_eq!(CompilerError::MissingCode.message(), "Missing Code");
    assert_eq!(CompilerError::IoError("x".to_owned()).message(), "Io Error: x");
    assert_eq!(CompilerError::ReadError("x".to_owned()).message(), "Read Error: x");
    let io = std::io::Error::new(std::io::ErrorKind::Other, "broken pipe");
    assert_eq!(CompilerError::from(io), CompilerError::IoError("broken pipe".to_owned()));
}

#[test]
fn lifecycle_is_traced() {
    let lifecycle = TraceLifecycle;
    assert_eq!(lifecycle.container_start(), "container_start");
    assert_eq!(lifecycle.container_acquired("Acquired"), "container_acquired Acquired");
    assert_eq!(lifecycle.container_release(), "container_release");
    assert_eq!(lifecycle.process_start(), "process_start");
    assert_eq!(lifecycle.process_acquired("Acquired"), "process_acquired Acquired");
    assert_eq!(lifecycle.process_release(), "process_release");
}

#[test]
fn client_calls_the_service() {
    let client = CompilerClient::raw_connect("connection");
    assert_eq!(client.connection(), &"connection");
    let call = client.compile("fn a() {}");
    assert_eq!(call.request, CompileRequest { code: "fn a() {}".to_owned() });
    assert_eq!(call.deadline_secs, 120);
    assert_eq!(COMPILE_DEADLINE_SECS, 120);
    assert!(CompilerClient::connect::<u8>(Ok("connection")).is_ok());
    assert_eq!(CompilerClient::<u8>::connect(Err("refused")).err(), Some("refused"));
}

#[test]
fn client_understands_the_reply() {
    type Client = CompilerClient<u8>;
    let response = CompileResponse {
        sha256: String::new(),
        stdout: String::new(),
        stderr: String::new(),
        wasm_binary: vec![1],
    };
    assert_eq!(Client::compiled(Ok(Ok(response.clone()))), Ok(response));
    assert_eq!(
        Client::compiled(Ok(Err(CompilerError::MissingCode))),
        Err(CompilerError::MissingCode)
    );
    assert_eq!(
        Client::compiled(Err("deadline".to_owned())),
        Err(CompilerError::IoError("deadline".to_owned()))
    );
}

#[test]
fn compilers_are_listed_with_commas() {
    assert_eq!(
        connect_env(Some(" a:1, b:2 ,,\t,c:3")),
        Ok(vec!["a:1".to_owned(), "b:2".to_owned(), "c:3".to_owned()])
    );
    assert_eq!(connect_env(Some("")), Ok(Vec::new()));
    assert_eq!(compiler_names("x"), vec!["x".to_owned()]);
    assert_eq!(connect_env(None), Err(ConnectError::NotConfigured));
    assert_eq!(
        ConnectError::NotConfigured.message(),
        "COMPILER environment variable should be set"
    );
}

#[test]
fn first_address_that_answers_is_taken() {
    let mut connector: Connector<u8> = connect("host:1");
    let action: ConnectAction<u8, &str> = connector.advance(ConnectEvent::Parsed(None));
    assert_eq!(action, ConnectAction::Resolve);
    let action: ConnectAction<u8, &str> =
        connector.advance(ConnectEvent::Resolved(Ok(vec![1, 2, 3])));
    assert_eq!(action, ConnectAction::Attempt(1));
    let action: ConnectAction<u8, &str> =
        connector.advance(ConnectEvent::Connected(Err("refused".to_owned())));
    assert_eq!(action, ConnectAction::Attempt(2));
    let action = connector.advance(ConnectEvent::Connected(Ok("client")));
    assert_eq!(action, ConnectAction::Done("client"));
}

#[test]
fn address_needs_no_resolution() {
    let mut connector: Connector<u8> = connect("1.2.3.4:5");
    let action: ConnectAction<u8, u8> = connector.advance(ConnectEvent::Parsed(Some(9)));
    assert_eq!(action, ConnectAction::Attempt(9));
    let action: ConnectAction<u8, u8> =
        connector.advance(ConnectEvent::Connected(Err("refused".to_owned())));
    let error = match action {
        ConnectAction::Fail(error) => error,
        other => panic!("{other:?}"),
    };
    assert_eq!(
        error.message(),
        "Failed to connect to compiler using any of the addresses derived from '1.2.3.4:5'. \
         Last error: Some(refused)"
    );
}

#[test]
fn unreachable_compilers_are_told() {
    let mut connector: Connector<u8> = connect("host");
    let _: ConnectAction<u8, u8> = connector.advance(ConnectEvent::Parsed(None));
    let action: ConnectAction<u8, u8> = connector.advance(ConnectEvent::Resolved(Ok(Vec::new())));
    let error = ConnectError::NoAddresses { name: "host".to_owned() };
    assert_eq!(error.message(), "DNS resolution for 'host' returned no addresses");
    assert_eq!(action, ConnectAction::Fail(error));

    let mut connector: Connector<u8> = connect("host");
    let _: ConnectAction<u8, u8> = connector.advance(ConnectEvent::Parsed(None));
    let action: ConnectAction<u8, u8> =
        connector.advance(ConnectEvent::Resolved(Err("no such host".to_owned())));
    let error = ConnectError::Resolution("no such host".to_owned());
    assert_eq!(error.message(), "no such host");
    assert_eq!(action, ConnectAction::Fail(error));
}

#[test]
fn all_compilers_must_be_connected() {
    assert_eq!(all_connected::<u8, u8>(vec![Ok(1), Ok(2)]), Ok(vec![1, 2]));
    assert_eq!(all_connected::<u8, u8>(vec![Ok(1), Err(2), Err(3)]), Err(2));
    assert_eq!(all_connected::<u8, u8>(vec![]), Ok(vec![]));
}
