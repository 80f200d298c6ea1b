use service_compiler::coordinator::container::{
    killed, shut_down, ContainerTask, ShutdownAction, Startup, StartupAction, StartupEvent,
    TaskAction, TaskEvent, WorkerPipes,
};
use service_compiler::coordinator::crates::{
    crates_listed, crates_read, crates_request, Crate, InternalCrate,
};
use service_compiler::coordinator::docker::{
    basic_secure_docker_command, docker_arch, DockerBackend, TargetArch,
};
use service_compiler::coordinator::error::{
    CommanderError, CompileError, ContainerCratesError, CratesError, Error, OutsideError,
    TerminateContainerError,
};
use service_compiler::coordinator::manifest::ModifyCargoTomlError;
use service_compiler::coordinator::message::{ReadFileRequest, ReadFileResponse};
use service_compiler::coordinator::tracking::{
    CommandOutput, KillFailure, TerminateContainer, TrackedContainers,
};
use service_compiler::coordinator::{Coordinator, CoordinatorFactory, Stable};

type TestCoordinator = Coordinator<u8, DockerBackend, u16, &'static str, u32>;

fn outside(text: &str) -> OutsideError {
    OutsideError { text: text.to_owned(), debug: format!("Custom({text:?})") }
}

#[test]
fn worker_runs_in_a_container_with_few_rights() {
    let mut containers = TrackedContainers::new();
    let backend = DockerBackend::default();
    let (command, mut kill, was_inserted) =
        backend.prepare_worker_command("17", TargetArch::X86_64, &mut containers);
    assert!(was_inserted);
    assert_eq!(kill.name(), Some("wasmbuild-17"));
    assert_eq!(command.program, "podman");
    assert_eq!(
        command.args,
        vec![
            "run", "--platform", "linux/amd64", "--cap-drop=ALL", "--net", "none", "--memory",
            "1g", "--memory-swap", "2g", "--pids-limit", "512", "--oom-score-adj", "1000",
            "--name", "wasmbuild-17", "-i", "-a", "stdin", "-a", "stdout", "-a", "stderr", "--rm",
            "rust-stable", "worker", "/wasmbuild",
        ]
    );
    assert_eq!(containers.names(), &vec!["wasmbuild-17".to_owned()]);
    let end = kill.terminate_now(&mut containers).unwrap();
    assert_eq!(end.name, "wasmbuild-17");
    assert!(end.was_tracked);
    assert_eq!(end.command.program, "docker");
    assert_eq!(end.command.args, vec!["kill", "--signal", "KILL", "wasmbuild-17"]);
    assert!(containers.names().is_empty());
    assert!(kill.terminate_now(&mut containers).is_none());
    assert_eq!(kill.name(), None);
    backend.prepare_worker_command("17", TargetArch::X86_64, &mut containers);
    backend.prepare_worker_command("18", TargetArch::X86_64, &mut containers);
    let again = backend.prepare_worker_command("18", TargetArch::X86_64, &mut containers);
    assert!(!again.2);
    assert_eq!(
        containers.names(),
        &vec!["wasmbuild-17".to_owned(), "wasmbuild-18".to_owned()]
    );
    assert_eq!(docker_arch(TargetArch::Aarch64), "linux/arm64");
    assert_eq!(basic_secure_docker_command(TargetArch::Aarch64).args[2], "linux/arm64");
}

#[test]
fn running_containers_are_listed_in_order() {
    let mut containers = TrackedContainers::new();
    assert!(TerminateContainer::start_tracking("b", &mut containers));
    assert!(TerminateContainer::start_tracking("a", &mut containers));
    assert!(!TerminateContainer::start_tracking("b", &mut containers));
    assert_eq!(containers.names(), &vec!["a".to_owned(), "b".to_owned()]);
    assert!(TerminateContainer::stop_tracking("b", &mut containers));
    assert!(!TerminateContainer::stop_tracking("b", &mut containers));
    assert_eq!(containers.names(), &vec!["a".to_owned()]);
    assert!(TerminateContainer::none().terminate_now(&mut containers).is_none());
}

#[test]
fn failed_kill_is_reported() {
    let name = "wasmbuild-1".to_owned();
    let output = |success: bool| CommandOutput {
        success,
        code: Some(1),
        stdout: b" out \n".to_vec(),
        stderr: vec![b'\t', 0xff, b'x', b'\n'],
    };
    assert_eq!(TerminateContainer::report_failure(name.clone(), output(true)), None);
    assert_eq!(
        TerminateContainer::killed(name.clone(), Ok(output(false))),
        Ok(Some(KillFailure {
            name: name.clone(),
            code: Some(1),
            stdout: "out".to_owned(),
            stderr: "\u{fffd}x".to_owned(),
        }))
    );
    let error = TerminateContainerError { name: name.clone(), source: outside("gone") };
    assert_eq!(error.message(), "Unable to kill the Docker container wasmbuild-1");
    assert_eq!(TerminateContainer::killed(name, Err(outside("gone"))), Err(error));
}

#[test]
fn container_starts() {
    let startup: Startup<u8> = Startup::new();
    assert_eq!(startup.permit(), None);
    let (startup, action) = startup.advance(StartupEvent::Permitted(Ok(7)));
    assert!(matches!(action, StartupAction::SpawnWorker));
    assert_eq!(startup.permit(), Some(&7));
    let pipes = WorkerPipes { stdin: true, stdout: true };
    let (startup, action) = startup.advance(StartupEvent::WorkerSpawned(Ok(pipes)));
    match action {
        StartupAction::ReadManifest(read) => assert_eq!(read.path, "Cargo.toml"),
        _ => panic!("no manifest is read"),
    }
    assert_eq!(startup.permit(), Some(&7));
    let file = ReadFileResponse(b"[package]\nname = \"x\"\n".to_vec());
    let (startup, action) = startup.advance(StartupEvent::ManifestRead(Ok(file)));
    assert!(matches!(action, StartupAction::Ready { permit: 7, .. }));
    assert!(matches!(startup, Startup::Over));
}

#[test]
fn container_fails_to_start() {
    let fail = |state: Startup<u8>, event: StartupEvent<u8>| -> Error {
        match state.advance(event) {
            (Startup::Over, StartupAction::Fail(error)) => error,
            _ => panic!("the container starts"),
        }
    };
    assert_eq!(
        fail(Startup::Permit, StartupEvent::Permitted(Err(outside("full")))),
        Error::AcquirePermit { source: outside("full") }
    );
    let worker = || Startup::Worker { permit: 7 };
    let manifest = || Startup::Manifest { permit: 7 };
    assert_eq!(
        fail(worker(), StartupEvent::WorkerSpawned(Err(outside("x")))),
        Error::SpawnWorker { source: outside("x") }
    );
    let pipes = |stdin: bool, stdout: bool| {
        StartupEvent::WorkerSpawned(Ok(WorkerPipes { stdin, stdout }))
    };
    assert_eq!(fail(worker(), pipes(false, false)), Error::WorkerStdinCapture);
    assert_eq!(fail(worker(), pipes(false, true)), Error::WorkerStdinCapture);
    assert_eq!(fail(worker(), pipes(true, false)), Error::WorkerStdoutCapture);
    let source = CommanderError::UnexpectedResponseType;
    assert_eq!(
        fail(manifest(), StartupEvent::ManifestRead(Err(source.clone()))),
        Error::CouldNotLoadCargoToml { source: ModifyCargoTomlError::CouldNotRead { source } }
    );
    let broken = StartupEvent::ManifestRead(Ok(ReadFileResponse(b"= 1".to_vec())));
    assert!(matches!(
        fail(manifest(), broken),
        Error::CouldNotLoadCargoToml { source: ModifyCargoTomlError::CouldNotDeserialize { .. } }
    ));
    let binary = StartupEvent::ManifestRead(Ok(ReadFileResponse(vec![0xff])));
    assert!(matches!(
        fail(manifest(), binary),
        Error::CouldNotLoadCargoToml { source: ModifyCargoTomlError::InvalidUtf8 { .. } }
    ));
}

#[test]
fn container_lasts_until_all_parts_have_ended() {
    let mut task = ContainerTask::new();
    let exit = TaskEvent::ChildExited(Err(outside("not waited for")));
    assert_eq!(task.advance(exit), TaskAction::Wait);
    assert_eq!(task.advance(TaskEvent::IoQueueEnded(None)), TaskAction::Wait);
    assert_eq!(
        task.advance(TaskEvent::DemultiplexerEnded(Ok(Ok(())))),
        TaskAction::End(Ok(()))
    );
    let mut task = ContainerTask::new();
    assert_eq!(task.advance(TaskEvent::IoQueueEnded(Some(Ok(Ok(()))))), TaskAction::Wait);
}

#[test]
fn container_ends_with_the_first_failure() {
    let end = |event: TaskEvent| -> TaskAction { ContainerTask::new().advance(event) };
    assert_eq!(
        end(TaskEvent::DemultiplexerEnded(Err(outside("p")))),
        TaskAction::End(Err(Error::DemultiplexerTaskPanicked { source: outside("p") }))
    );
    let source = CommanderError::DuplicateDemultiplexerClient { job_id: 1 };
    assert_eq!(
        end(TaskEvent::DemultiplexerEnded(Ok(Err(source.clone())))),
        TaskAction::End(Err(Error::DemultiplexerTaskFailed { source }))
    );
    assert_eq!(
        end(TaskEvent::IoQueueEnded(Some(Err(outside("p"))))),
        TaskAction::End(Err(Error::IoQueuePanicked { source: outside("p") }))
    );
    assert_eq!(
        end(TaskEvent::IoQueueEnded(Some(Ok(Err(Error::UnableToSendWorkerMessage { source: outside("p") }))))),
        TaskAction::End(Err(Error::UnableToSendWorkerMessage { source: outside("p") }))
    );
}

#[test]
fn container_shuts_down() {
    assert_eq!(killed(Ok(())), ShutdownAction::AwaitTask);
    let source = TerminateContainerError { name: "n".to_owned(), source: outside("s") };
    let failure = Error::KillWorker { source: source.clone() };
    assert_eq!(failure.message(), "Unable to kill the Docker container n");
    assert_eq!(killed(Err(source)), ShutdownAction::Fail(failure));
    assert_eq!(shut_down(Ok(Ok(()))), Ok(()));
    assert_eq!(
        shut_down(Ok(Err(Error::WorkerStdinCapture))),
        Err(Error::WorkerStdinCapture)
    );
    assert_eq!(
        shut_down(Err(outside("p"))),
        Err(Error::ContainerTaskPanicked { source: outside("p") })
    );
}

#[test]
fn crates_are_listed() {
    assert_eq!(
        crates_request(),
        ReadFileRequest { path: "crate-information.json".to_owned() }
    );
    assert_eq!(crates_read(Ok(ReadFileResponse(vec![1]))), Ok(vec![1]));
    let source = CommanderError::UnexpectedResponseType;
    assert_eq!(
        crates_read(Err(source.clone())),
        Err(ContainerCratesError::Read { source })
    );
    let internal = |n: &str| InternalCrate {
        name: n.to_owned(),
        version: "1".to_owned(),
        id: format!("{n}_1"),
    };
    let listed = |n: &str| Crate {
        name: n.to_owned(),
        version: "1".to_owned(),
        id: format!("{n}_1"),
    };
    assert_eq!(Crate::from(internal("a")), listed("a"));
    let crates = crates_listed(Ok(vec![internal("a"), internal("b")]));
    assert_eq!(crates, Ok(vec![listed("a"), listed("b")]));
    assert_eq!(TestCoordinator::crates(Ok(crates)), Ok(vec![listed("a"), listed("b")]));
    let source = ContainerCratesError::Deserialization { source: outside("json") };
    assert_eq!(crates_listed(Err(outside("json"))), Err(source.clone()));
    assert_eq!(
        TestCoordinator::crates(Ok(Err(source.clone()))),
        Err(CratesError::Container { source })
    );
    assert_eq!(
        TestCoordinator::crates(Err(Error::WorkerStdinCapture)),
        Err(CratesError::Start { source: Error::WorkerStdinCapture })
    );
}

#[test]
fn coordinator_starts_one_container() {
    let factory = CoordinatorFactory::new(5u8);
    assert_eq!(factory.limits(), &5);
    let mut coordinator: TestCoordinator = factory.build(1);
    match coordinator.start_stable() {
        Stable::Start { limits, token, .. } => assert_eq!((*limits, *token), (5, 1)),
        Stable::Running { .. } => panic!("a container runs"),
    }
    let failure = Error::WorkerStdinCapture;
    assert_eq!(coordinator.container_started(Err(failure.clone())), Err(failure.clone()));
    assert!(matches!(coordinator.start_stable(), Stable::Start { .. }));
    assert_eq!(
        TestCoordinator::begin_compile::<()>(Err(failure.clone())),
        Err(CompileError::CouldNotStartContainer { source: failure.clone() })
    );
    assert_eq!(coordinator.container_started(Ok((7, "first"))), Ok(()));
    match coordinator.start_stable() {
        Stable::Running { permit, container } => assert_eq!((*permit, *container), (7, "first")),
        Stable::Start { .. } => panic!("no container runs"),
    }
    assert_eq!(coordinator.idle(2), (1, Some((7, "first"))));
    assert!(matches!(coordinator.start_stable(), Stable::Start { .. }));
    assert_eq!(coordinator.idle(3), (2, None));
    assert_eq!(TestCoordinator::idled(None), Ok(()));
    assert_eq!(TestCoordinator::idled(Some(Err(failure.clone()))), Err(failure.clone()));
    assert!(matches!(coordinator.shutdown(Err(failure)), Err(Error::WorkerStdinCapture)));
    let coordinator: TestCoordinator = factory.build(1);
    assert!(coordinator.shutdown(Ok(())).is_ok());
}

#[test]
fn coordinators_of_one_factory_hold_permits_of_their_own() {
    let factory = CoordinatorFactory::new(5u8);
    let mut first: TestCoordinator = factory.build(1);
    let mut second: TestCoordinator = factory.build(2);
    first.container_started(Ok((10, "first"))).unwrap();
    assert!(matches!(second.start_stable(), Stable::Start { limits: 5, .. }));
    second.container_started(Ok((11, "second"))).unwrap();
    assert_eq!(first.idle(3).1, Some((10, "first")));
    assert!(matches!(second.start_stable(), Stable::Running { permit: 11, .. }));
}
