//! Whole compilations, with a worker that keeps its files in memory.
use service_compiler::coordinator::cargo_task::{
    CargoAction, CargoEvent, CargoStart, CargoStartAction, CargoStartEvent, CargoTask,
};
use service_compiler::coordinator::commander::{
    one_answer, Commander, Exchange, ExchangeAction, ExchangeEvent,
};
use service_compiler::coordinator::compilation::{
    Compilation, CompilationAction, CompilationEvent, CompileResponse, Preparation,
    PreparationAction, PreparationEvent,
};
use service_compiler::coordinator::container::{
    Startup, StartupAction, StartupEvent, WorkerPipes,
};
use service_compiler::coordinator::demultiplexer::{
    DemultiplexAction, DemultiplexCommand, DemultiplexEvent, Demultiplexer,
};
use service_compiler::coordinator::docker::DockerBackend;
use service_compiler::coordinator::error::{CommanderError, CompileError, Error, SpawnCargoError};
use service_compiler::coordinator::manifest::ModifyCargoToml;
use service_compiler::coordinator::message::{
    CoordinatorMessage, DeleteFileResponse, ExecuteCommandRequest, ExecuteCommandResponse, JobId,
    Multiplexed, OneToOneResponse, ReadFileResponse, SerializedError2, WorkerMessage,
    WriteFileResponse,
};
use service_compiler::coordinator::output::{Absorption, OutputEvent, WithOutput};
use service_compiler::coordinator::request::CompileRequest;
use service_compiler::coordinator::{Coordinator, CoordinatorFactory, Stable};
use service_compiler::digest::sha256_hex;
use service_compiler::service::WasmCompilerService;
use std::collections::HashMap;

type Service = WasmCompilerService<()>;

/// Keeps files, and "compiles" every library but those that hold `syntax error`.
struct Worker {
    files: HashMap<String, Vec<u8>>,
}

impl Worker {
    fn new() -> Worker {
        let mut files = HashMap::new();
        files.insert("Cargo.toml".to_owned(), b"[package]\nname = \"nbhdai\"\n".to_vec());
        Worker { files }
    }

    fn handle(&mut self, message: CoordinatorMessage) -> Vec<WorkerMessage> {
        match message {
            CoordinatorMessage::WriteFile(write) => {
                self.files.insert(write.path, write.content);
                vec![WorkerMessage::WriteFile(WriteFileResponse)]
            }
            CoordinatorMessage::DeleteFile(delete) => {
                self.files.remove(&delete.path);
                vec![WorkerMessage::DeleteFile(DeleteFileResponse)]
            }
            CoordinatorMessage::ReadFile(read) => match self.files.get(&read.path) {
                Some(content) => vec![WorkerMessage::ReadFile(ReadFileResponse(content.clone()))],
                None => vec![WorkerMessage::Error2(SerializedError2 {
                    message: "no such file".to_owned(),
                    causes: Vec::new(),
                })],
            },
            CoordinatorMessage::ExecuteCommand(execute) => self.execute(execute),
            CoordinatorMessage::StdinPacket(_)
            | CoordinatorMessage::StdinClose
            | CoordinatorMessage::Kill => Vec::new(),
        }
    }

    fn execute(&mut self, execute: ExecuteCommandRequest) -> Vec<WorkerMessage> {
        assert_eq!(execute.cmd, "cargo");
        let manifest = String::from_utf8(self.files["Cargo.toml"].clone()).unwrap();
        assert!(manifest.contains("cdylib"));
        let code = String::from_utf8(self.files["src/lib.rs"].clone()).unwrap();
        let success = !code.contains("syntax error");
        if success {
            let mut binary = b"\0asm".to_vec();
            binary.extend(code.as_bytes());
            self.files.insert("compilation".to_owned(), binary);
        }
        vec![
            WorkerMessage::StderrPacket("Compiling ".to_owned()),
            WorkerMessage::StdoutPacket("done".to_owned()),
            WorkerMessage::StderrPacket("nbhdai".to_owned()),
            WorkerMessage::ExecuteCommand(ExecuteCommandResponse {
                success,
                exit_detail: String::new(),
            }),
        ]
    }
}

/// A worker and what talks to it.
struct Container {
    worker: Worker,
    commander: Commander,
    demultiplexer: Demultiplexer<&'static str, &'static str>,
    manifest: Option<ModifyCargoToml>,
}

impl Container {
    fn start() -> (u8, Container) {
        let mut container = Container {
            worker: Worker::new(),
            commander: Commander::new(),
            demultiplexer: Demultiplexer::new(),
            manifest: None,
        };
        let (startup, _) = Startup::new().advance(StartupEvent::Permitted(Ok(7)));
        let pipes = WorkerPipes { stdin: true, stdout: true };
        let (startup, read) = match startup.advance(StartupEvent::WorkerSpawned(Ok(pipes))) {
            (startup, StartupAction::ReadManifest(read)) => (startup, read),
            _ => panic!("no manifest is read"),
        };
        let file = container.one(read);
        match startup.advance(StartupEvent::ManifestRead(file)).1 {
            StartupAction::Ready { permit, cargo_toml } => {
                container.manifest = Some(cargo_toml);
                (permit, container)
            }
            _ => panic!("the container is not ready"),
        }
    }

    /// Sends a request once its listener is listed.
    fn send(
        &mut self,
        exchange: Exchange,
        command: DemultiplexCommand<&'static str, &'static str>,
    ) -> (Exchange, JobId, Vec<WorkerMessage>) {
        let (exchange, _) = exchange.advance(ExchangeEvent::CommandSent(Ok(())));
        let action = self.demultiplexer.demultiplex(DemultiplexEvent::Command(Some(command)));
        assert!(matches!(action, DemultiplexAction::Acknowledge));
        let (exchange, action) = exchange.advance(ExchangeEvent::Acknowledged(Ok(())));
        match action {
            ExchangeAction::SendRequest(Multiplexed(job_id, message)) => {
                let answers = self.worker.handle(message);
                let (exchange, _) = exchange.advance(ExchangeEvent::RequestSent(Ok(())));
                (exchange, job_id, answers)
            }
            other => panic!("{other:?}"),
        }
    }

    fn one<M: OneToOneResponse>(&mut self, request: M) -> Result<M::Response, CommanderError> {
        let id = self.commander.next_id();
        let command = DemultiplexCommand::ListenOnce(id, "once");
        let (exchange, job_id, mut answers) = self.send(Exchange::one(id, request), command);
        let event = DemultiplexEvent::FromWorker(Some(Multiplexed(job_id, answers.remove(0))));
        let message = match self.demultiplexer.demultiplex(event) {
            DemultiplexAction::NotifyOnce("once", message) => message,
            other => panic!("{other:?}"),
        };
        match exchange.advance(ExchangeEvent::Answered(Ok(message))).1 {
            ExchangeAction::Finish(message) => one_answer::<M>(message),
            other => panic!("{other:?}"),
        }
    }

    fn cargo(&mut self, execute: ExecuteCommandRequest) -> (Vec<CargoAction>, JobId) {
        let id = self.commander.next_id();
        let start: CargoStart<u8> = CargoStart::new(execute);
        let message = match start.advance::<()>(CargoStartEvent::Permitted(Ok(1))).1 {
            CargoStartAction::BeginExchange(message) => message,
            _ => panic!("no exchange begins"),
        };
        let exchange = Exchange::many(id, message);
        let command = DemultiplexCommand::Listen(id, "many");
        let (_, job_id, answers) = self.send(exchange, command);
        let mut task = CargoTask::new();
        let mut actions = Vec::new();
        actions.push(task.advance(CargoEvent::Stdin(None)));
        for answer in answers {
            let event = DemultiplexEvent::FromWorker(Some(Multiplexed(job_id, answer)));
            match self.demultiplexer.demultiplex(event) {
                DemultiplexAction::NotifyMany(_, message) => {
                    actions.push(task.advance(CargoEvent::FromWorker(message)));
                }
                other => panic!("{other:?}"),
            }
        }
        (actions, job_id)
    }

    fn compile(
        &mut self,
        request: &CompileRequest,
    ) -> Result<WithOutput<CompileResponse>, CompileError> {
        let manifest = self.manifest.take().unwrap();
        let (mut preparation, asked) = Preparation::do_request(request, &manifest);
        self.manifest = Some(manifest);
        let deleted = self.one(asked.delete_previous_main);
        preparation.advance(request, PreparationEvent::Deleted(deleted));
        let written = self.one(asked.write_main);
        preparation.advance(request, PreparationEvent::Written(written));
        let modified = self.one(asked.modify_cargo_toml.unwrap());
        let modified = PreparationEvent::Modified(ModifyCargoToml::written(modified));
        let execute = match preparation.advance(request, modified) {
            PreparationAction::Execute(execute) => execute,
            other => panic!("{other:?}"),
        };
        let (actions, job_id) = self.cargo(execute);

        let mut absorption: Absorption<CompileResponse> = Absorption::new();
        let mut ended: Option<Result<ExecuteCommandResponse, SpawnCargoError>> = None;
        for action in actions {
            let event: OutputEvent<CompileResponse, CompileError> = match action {
                CargoAction::Stdout(packet) => OutputEvent::Stdout(Some(packet)),
                CargoAction::Stderr(packet) => OutputEvent::Stderr(Some(packet)),
                CargoAction::Finish(result) => {
                    ended = Some(result);
                    continue;
                }
                _ => continue,
            };
            absorption = absorption.absorb(event).err().unwrap();
        }
        let cargo = CompilationEvent::CargoEnded(Ok(ended.unwrap()));
        let outcome = match Compilation::Running.advance(request, cargo) {
            CompilationAction::Finish(outcome) => outcome,
            CompilationAction::Read(reading, read) => {
                let read = CompilationEvent::OutputRead(self.one(read));
                match reading.advance(request, read) {
                    CompilationAction::Finish(outcome) => outcome,
                    other => panic!("{other:?}"),
                }
            }
        };
        let gone = DemultiplexEvent::Gc { closed: vec![job_id], closed_once: Vec::new() };
        self.demultiplexer.demultiplex(gone);
        let absorption = absorption
            .absorb::<CompileError>(OutputEvent::Stdout(None))
            .err()
            .unwrap();
        let absorption = absorption
            .absorb::<CompileError>(OutputEvent::Stderr(None))
            .err()
            .unwrap();
        absorption.absorb(OutputEvent::Finished(outcome)).ok().unwrap()
    }
}

type TestCoordinator = Coordinator<u8, DockerBackend, u8, Container, u32>;

fn request(code: &str) -> CompileRequest {
    CompileRequest { code: code.to_owned() }
}

fn coordinator() -> TestCoordinator {
    CoordinatorFactory::new(1).build(0)
}

fn compile(
    coordinator: &mut TestCoordinator,
    request: &CompileRequest,
) -> Result<WithOutput<CompileResponse>, CompileError> {
    if let Stable::Start { .. } = coordinator.start_stable() {
        coordinator.container_started(Ok(Container::start())).unwrap();
    }
    // The container is taken out while it works.
    let (token, container) = coordinator.idle(0);
    let (permit, mut container) = container.unwrap();
    let answer = container.compile(request);
    let _ = coordinator.idle(token);
    coordinator.container_started(Ok((permit, container))).unwrap();
    TestCoordinator::compile(Ok(answer))
}

#[test]
fn compile_wasm() {
    let mut coordinator = coordinator();
    let request = request(r#"#[export_name = "inc"] pub fn inc(a: u8) -> u8 { a + 1 }"#);
    let response = compile(&mut coordinator, &request).unwrap();
    assert!(response.success, "stderr: {}", response.stderr);
    assert!(!response.code.is_empty(), "No response");
    assert!(coordinator.shutdown(Ok(())).is_ok());
}

#[test]
fn compile_tells_what_was_printed() {
    let mut coordinator = coordinator();
    let response = compile(&mut coordinator, &request("pub fn alpha() {}")).unwrap();
    assert_eq!(response.stdout, "done");
    assert_eq!(response.stderr, "Compiling nbhdai");
    assert_eq!(response.code, b"\0asmpub fn alpha() {}".to_vec());
}

#[test]
fn second_compilation_sees_only_its_own_code() {
    let mut coordinator = coordinator();
    let response = compile(&mut coordinator, &request("syntax error")).unwrap();
    assert!(!response.success, "stderr: {}", response.stderr);
    assert!(response.code.is_empty());
    let code = "pub fn beta(a: u8) -> u8 { a + 1 }";
    let response = compile(&mut coordinator, &request(code)).unwrap();
    assert!(response.success, "stderr: {}", response.stderr);
    assert_eq!(&response.code[4..], code.as_bytes());
}

#[test]
fn still_usable_after_idle() {
    let mut coordinator = coordinator();
    let request = request("pub fn alpha(a: u8) -> u8 { a + 1 }");
    let response = compile(&mut coordinator, &request).unwrap();
    assert!(response.success);

    let (_, container) = coordinator.idle(1);
    assert!(container.is_some());
    assert!(matches!(coordinator.start_stable(), Stable::Start { .. }));

    let response = compile(&mut coordinator, &request).unwrap();
    assert!(response.success);
}

#[test]
fn service_answers_with_the_binary() {
    let mut coordinator = coordinator();
    let grader = "fn call(output: &str, target: &str) -> Result<f32, String> { Ok(0.0) }";
    let answer = compile(&mut coordinator, &request(grader)).unwrap();
    let code = answer.code.clone();
    let response = Service::compiled(Ok(answer)).unwrap();
    assert!(!response.wasm_binary.is_empty(), "Binary should not be empty");
    assert_eq!(response.sha256, sha256_hex(&code));
}

#[test]
fn missing_container_is_told() {
    let answer = TestCoordinator::compile(Err(Error::WorkerStdoutCapture));
    let error = answer.err().unwrap();
    assert_eq!(error.message(), "Could not start the container");
}
