use service_compiler::coordinator::cargo_task::{
    CargoAction, CargoEvent, CargoStart, CargoStartAction, CargoStartEvent, CargoTask,
};
use service_compiler::coordinator::commander::{
    one_answer, Commander, Exchange, ExchangeAction, ExchangeEvent,
};
use service_compiler::coordinator::demultiplexer::{
    DemultiplexAction, DemultiplexCommand, DemultiplexEvent, Demultiplexer,
};
use service_compiler::coordinator::error::{
    CommanderError, Error, MultiplexedSenderError, OutsideError, SpawnCargoError,
};
use service_compiler::coordinator::io_queue::{
    bincode_input_closed, forwarded, input_step, Decoded, InputAction, OutputAction, OutputQueue,
    OutputQueueEvent,
};
use service_compiler::coordinator::message::{
    CommandStatistics, CoordinatorMessage, DeleteFileRequest, DeleteFileResponse,
    ExecuteCommandRequest, ExecuteCommandResponse, Multiplexed, OneToOneResponse, ReadFileRequest, ReadFileResponse,
    SerializedError, SerializedError2, WorkerMessage, WriteFileRequest, WriteFileResponse,
};

fn read(path: &str) -> ReadFileRequest {
    ReadFileRequest { path: path.to_owned() }
}

fn outside(text: &str) -> OutsideError {
    OutsideError { text: text.to_owned(), debug: format!("Custom({text:?})") }
}

fn not_sent() -> MultiplexedSenderError {
    MultiplexedSenderError { source: outside("closed") }
}

fn failure(message: &str) -> SerializedError2 {
    SerializedError2 { message: message.to_owned(), causes: Vec::new() }
}

#[test]
fn job_ids_count_from_zero() {
    let mut commander = Commander::new();
    assert_eq!(commander.next_id(), 0);
    assert_eq!(commander.next_id(), 1);
    assert_eq!(commander.next_id(), 2);
    let sender = commander.build_multiplexed_sender(7);
    assert_eq!(
        sender.multiplex(CoordinatorMessage::Kill),
        Multiplexed(7, CoordinatorMessage::Kill)
    );
    assert_eq!(Commander::GC_PERIOD_SECS, 30);
}

#[test]
fn listener_is_listed_before_the_request_is_sent() {
    let exchange = Exchange::one(3, read("a"));
    let (exchange, action) = exchange.advance(ExchangeEvent::CommandSent(Ok(())));
    assert_eq!(action, ExchangeAction::AwaitAcknowledgement);
    let (exchange, action) = exchange.advance(ExchangeEvent::Acknowledged(Ok(())));
    assert_eq!(
        action,
        ExchangeAction::SendRequest(Multiplexed(3, CoordinatorMessage::ReadFile(read("a"))))
    );
    let (exchange, action) = exchange.advance(ExchangeEvent::RequestSent(Ok(())));
    assert_eq!(action, ExchangeAction::AwaitAnswer);
    let answer = WorkerMessage::ReadFile(ReadFileResponse(vec![1]));
    let (exchange, action) = exchange.advance(ExchangeEvent::Answered(Ok(answer.clone())));
    assert_eq!(action, ExchangeAction::Finish(answer));
    assert_eq!(exchange, Exchange::Ended);
}

#[test]
fn exchange_with_many_answers_starts() {
    let exchange = Exchange::many(4, CoordinatorMessage::Kill);
    let (exchange, _) = exchange.advance(ExchangeEvent::CommandSent(Ok(())));
    let (exchange, _) = exchange.advance(ExchangeEvent::Acknowledged(Ok(())));
    let (_, action) = exchange.advance(ExchangeEvent::RequestSent(Ok(())));
    assert_eq!(action, ExchangeAction::Started);
}

#[test]
fn exchange_fails_at_each_step() {
    let (_, action) = Exchange::one(0, read("a")).advance(ExchangeEvent::CommandSent(Err(outside("x"))));
    assert_eq!(action, ExchangeAction::Fail(CommanderError::UnableToSendToDemultiplexer { source: outside("x") }));

    let (exchange, _) = Exchange::one(0, read("a")).advance(ExchangeEvent::CommandSent(Ok(())));
    let (_, action) = exchange.advance(ExchangeEvent::Acknowledged(Err(outside("x"))));
    assert_eq!(action, ExchangeAction::Fail(CommanderError::DemultiplexerDidNotRespond { source: outside("x") }));

    let (exchange, _) = Exchange::one(0, read("a")).advance(ExchangeEvent::CommandSent(Ok(())));
    let (exchange, _) = exchange.advance(ExchangeEvent::Acknowledged(Ok(())));
    let (_, action) = exchange.advance(ExchangeEvent::RequestSent(Err(not_sent())));
    assert_eq!(
        action,
        ExchangeAction::Fail(CommanderError::UnableToStartOne { source: not_sent() })
    );

    let (exchange, _) =
        Exchange::many(0, CoordinatorMessage::Kill).advance(ExchangeEvent::CommandSent(Ok(())));
    let (exchange, _) = exchange.advance(ExchangeEvent::Acknowledged(Ok(())));
    let (_, action) = exchange.advance(ExchangeEvent::RequestSent(Err(not_sent())));
    assert_eq!(
        action,
        ExchangeAction::Fail(CommanderError::UnableToStartMany { source: not_sent() })
    );

    let (_, action) = Exchange::Answering.advance(ExchangeEvent::Answered(Err(outside("x"))));
    assert_eq!(
        action,
        ExchangeAction::Fail(CommanderError::UnableToReceiveFromDemultiplexer { source: outside("x") })
    );
}

#[test]
fn answers_are_told_apart() {
    let content = ReadFileResponse(vec![1, 2]);
    assert_eq!(
        one_answer::<ReadFileRequest>(WorkerMessage::ReadFile(content.clone())),
        Ok(content)
    );
    assert_eq!(
        one_answer::<WriteFileRequest>(WorkerMessage::WriteFile(WriteFileResponse)),
        Ok(WriteFileResponse)
    );
    assert_eq!(
        one_answer::<DeleteFileRequest>(WorkerMessage::DeleteFile(DeleteFileResponse)),
        Ok(DeleteFileResponse)
    );
    assert_eq!(
        one_answer::<ReadFileRequest>(WorkerMessage::WriteFile(WriteFileResponse)),
        Err(CommanderError::UnexpectedResponseType)
    );
    assert_eq!(
        one_answer::<ReadFileRequest>(WorkerMessage::Error(SerializedError("x".to_owned()))),
        Err(CommanderError::WorkerOperationFailed { source: failure("x") })
    );
    let nested = SerializedError2 { message: "y".to_owned(), causes: vec!["z".to_owned()] };
    assert_eq!(
        one_answer::<ReadFileRequest>(WorkerMessage::Error2(nested.clone())),
        Err(CommanderError::WorkerOperationFailed { source: nested })
    );
}

#[test]
fn requests_become_messages() {
    let write = WriteFileRequest { path: "p".to_owned(), content: vec![1] };
    assert_eq!(write.clone().into_message(), CoordinatorMessage::WriteFile(write));
    let delete = DeleteFileRequest { path: "p".to_owned() };
    assert_eq!(delete.clone().into_message(), CoordinatorMessage::DeleteFile(delete));
}

#[test]
fn messages_reach_their_listeners() {
    let mut demultiplexer: Demultiplexer<&str, &str> = Demultiplexer::new();
    let listen = DemultiplexEvent::Command(Some(DemultiplexCommand::Listen(1, "many")));
    assert!(matches!(demultiplexer.demultiplex(listen), DemultiplexAction::Acknowledge));
    let listen = DemultiplexEvent::Command(Some(DemultiplexCommand::ListenOnce(2, "once")));
    assert!(matches!(demultiplexer.demultiplex(listen), DemultiplexAction::Acknowledge));
    assert_eq!(demultiplexer.listener(1), Some(&"many"));
    assert_eq!(demultiplexer.once_listener(2), Some(&"once"));
    assert_eq!(demultiplexer.jobs(), vec![1]);
    assert_eq!(demultiplexer.once_jobs(), vec![2]);

    let packet = WorkerMessage::StdoutPacket("out".to_owned());
    for _ in 0..2 {
        let event = DemultiplexEvent::FromWorker(Some(Multiplexed(1, packet.clone())));
        match demultiplexer.demultiplex(event) {
            DemultiplexAction::NotifyMany(1, message) => assert_eq!(message, packet),
            other => panic!("{other:?}"),
        }
    }
    let event = DemultiplexEvent::FromWorker(Some(Multiplexed(2, packet.clone())));
    match demultiplexer.demultiplex(event) {
        DemultiplexAction::NotifyOnce("once", message) => assert_eq!(message, packet),
        other => panic!("{other:?}"),
    }
    let event = DemultiplexEvent::FromWorker(Some(Multiplexed(2, packet.clone())));
    match demultiplexer.demultiplex(event) {
        DemultiplexAction::NoListener(2, message) => assert_eq!(message, packet),
        other => panic!("{other:?}"),
    }
}

#[test]
fn one_time_listener_goes_first() {
    let mut demultiplexer: Demultiplexer<u8, u8> = Demultiplexer::new();
    demultiplexer.demultiplex(DemultiplexEvent::Command(Some(DemultiplexCommand::Listen(1, 10))));
    demultiplexer
        .demultiplex(DemultiplexEvent::Command(Some(DemultiplexCommand::ListenOnce(1, 20))));
    let message = WorkerMessage::StdoutPacket(String::new());
    let event = DemultiplexEvent::FromWorker(Some(Multiplexed(1, message.clone())));
    assert!(matches!(demultiplexer.demultiplex(event), DemultiplexAction::NotifyOnce(20, _)));
    let event = DemultiplexEvent::FromWorker(Some(Multiplexed(1, message)));
    assert!(matches!(demultiplexer.demultiplex(event), DemultiplexAction::NotifyMany(1, _)));
}

#[test]
fn second_listener_of_a_job_fails() {
    let duplicate = CommanderError::DuplicateDemultiplexerClient { job_id: 5 };
    let mut demultiplexer: Demultiplexer<u8, u8> = Demultiplexer::new();
    demultiplexer.demultiplex(DemultiplexEvent::Command(Some(DemultiplexCommand::Listen(5, 1))));
    let again = DemultiplexEvent::Command(Some(DemultiplexCommand::Listen(5, 2)));
    match demultiplexer.demultiplex(again) {
        DemultiplexAction::Fail(error) => assert_eq!(error, duplicate),
        other => panic!("{other:?}"),
    }
    demultiplexer
        .demultiplex(DemultiplexEvent::Command(Some(DemultiplexCommand::ListenOnce(5, 1))));
    let again = DemultiplexEvent::Command(Some(DemultiplexCommand::ListenOnce(5, 2)));
    match demultiplexer.demultiplex(again) {
        DemultiplexAction::Fail(error) => assert_eq!(error, duplicate),
        other => panic!("{other:?}"),
    }
    assert_eq!(duplicate.message(), "Two listeners subscribed to job 5");
}

#[test]
fn listeners_that_are_gone_are_forgotten() {
    let mut demultiplexer: Demultiplexer<u8, u8> = Demultiplexer::new();
    for job in 0..3 {
        demultiplexer
            .demultiplex(DemultiplexEvent::Command(Some(DemultiplexCommand::Listen(job, 0))));
        demultiplexer
            .demultiplex(DemultiplexEvent::Command(Some(DemultiplexCommand::ListenOnce(job, 0))));
    }
    let event = DemultiplexEvent::Gc { closed: vec![0, 9], closed_once: vec![1, 2] };
    assert!(matches!(demultiplexer.demultiplex(event), DemultiplexAction::Continue));
    let mut jobs = demultiplexer.jobs();
    jobs.sort();
    assert_eq!(jobs, vec![1, 2]);
    assert_eq!(demultiplexer.once_jobs(), vec![0]);
}

#[test]
fn demultiplexer_stops_when_either_side_ends() {
    let mut demultiplexer: Demultiplexer<u8, u8> = Demultiplexer::new();
    assert!(matches!(
        demultiplexer.demultiplex(DemultiplexEvent::Command(None)),
        DemultiplexAction::Stop
    ));
    assert!(matches!(
        demultiplexer.demultiplex(DemultiplexEvent::FromWorker(None)),
        DemultiplexAction::Stop
    ));
}

#[test]
fn cargo_task_hands_everything_on() {
    let mut task = CargoTask::new();
    assert_eq!(
        task.advance(CargoEvent::Cancelled),
        CargoAction::SendKill(CoordinatorMessage::Kill)
    );
    assert_eq!(
        task.advance(CargoEvent::Stdin(Some("in".to_owned()))),
        CargoAction::SendStdin(CoordinatorMessage::StdinPacket("in".to_owned()))
    );
    assert!(task.stdin_open());
    assert_eq!(
        task.advance(CargoEvent::Stdin(None)),
        CargoAction::SendStdin(CoordinatorMessage::StdinClose)
    );
    assert!(!task.stdin_open());
    let out = WorkerMessage::StdoutPacket("o".to_owned());
    assert_eq!(task.advance(CargoEvent::FromWorker(out)), CargoAction::Stdout("o".to_owned()));
    let err = WorkerMessage::StderrPacket("e".to_owned());
    assert_eq!(task.advance(CargoEvent::FromWorker(err)), CargoAction::Stderr("e".to_owned()));
    let stats = CommandStatistics { total_time_secs_bits: 0, resident_set_size_bytes: 9 };
    assert_eq!(
        task.advance(CargoEvent::FromWorker(WorkerMessage::CommandStatistics(stats))),
        CargoAction::Status(stats)
    );
    let ended = ExecuteCommandResponse { success: true, exit_detail: "0".to_owned() };
    assert_eq!(
        task.advance(CargoEvent::FromWorker(WorkerMessage::ExecuteCommand(ended.clone()))),
        CargoAction::Finish(Ok(ended))
    );
}

#[test]
fn cargo_task_fails() {
    let fail = |event: CargoEvent| -> CargoAction { CargoTask::new().advance(event) };
    let error = WorkerMessage::Error(SerializedError("x".to_owned()));
    assert_eq!(
        fail(CargoEvent::FromWorker(error)),
        CargoAction::Finish(Err(SpawnCargoError::Worker { source: failure("x") }))
    );
    assert_eq!(
        fail(CargoEvent::FromWorker(WorkerMessage::Error2(failure("y")))),
        CargoAction::Finish(Err(SpawnCargoError::Worker { source: failure("y") }))
    );
    let unexpected = SpawnCargoError::UnexpectedMessage { message: "WriteFile".to_owned() };
    assert_eq!(unexpected.message(), "Received the unexpected message `WriteFile`");
    assert_eq!(
        fail(CargoEvent::FromWorker(WorkerMessage::WriteFile(WriteFileResponse))),
        CargoAction::Finish(Err(unexpected))
    );
    let mut task = CargoTask::new();
    task.advance(CargoEvent::Stdin(None));
    assert_eq!(
        task.advance(CargoEvent::Exhausted),
        CargoAction::Finish(Err(SpawnCargoError::UnexpectedEndOfMessages))
    );
    assert_eq!(
        CargoTask::kill_sent(Err(not_sent())),
        Err(SpawnCargoError::Kill { source: not_sent() })
    );
    assert_eq!(
        CargoTask::stdin_sent(Err(not_sent())),
        Err(SpawnCargoError::Stdin { source: not_sent() })
    );
}

#[test]
fn cancelled_run_goes_on_to_its_answer() {
    let mut task = CargoTask::new();
    assert!(!task.cancelled());
    assert_eq!(
        task.advance(CargoEvent::Cancelled),
        CargoAction::SendKill(CoordinatorMessage::Kill)
    );
    assert!(task.cancelled());
    let out = WorkerMessage::StdoutPacket("x".to_owned());
    assert_eq!(task.advance(CargoEvent::FromWorker(out)), CargoAction::Stdout("x".to_owned()));
    let ended = ExecuteCommandResponse { success: false, exit_detail: "killed".to_owned() };
    assert_eq!(
        task.advance(CargoEvent::FromWorker(WorkerMessage::ExecuteCommand(ended.clone()))),
        CargoAction::Finish(Ok(ended))
    );
}

fn execute() -> ExecuteCommandRequest {
    ExecuteCommandRequest {
        cmd: "cargo".to_owned(),
        args: vec!["wasm".to_owned()],
        envs: std::collections::HashMap::new(),
        cwd: None,
    }
}

#[test]
fn process_needs_a_permit() {
    let start: CargoStart<u8> = CargoStart::new(execute());
    let (start, action) = start.advance::<&str>(CargoStartEvent::Permitted(Ok(7)));
    match action {
        CargoStartAction::BeginExchange(message) => {
            assert_eq!(message, CoordinatorMessage::ExecuteCommand(execute()));
        }
        _ => panic!("no exchange begins"),
    }
    match start.advance(CargoStartEvent::Exchanged(Ok("channels"))).1 {
        CargoStartAction::Started { permit: 7, channels: "channels" } => {}
        _ => panic!("the run does not start"),
    }
}

#[test]
fn run_without_a_permit_or_an_exchange_does_not_start() {
    let start: CargoStart<u8> = CargoStart::new(execute());
    let (start, action) = start.advance::<u8>(CargoStartEvent::Permitted(Err(outside("full"))));
    match action {
        CargoStartAction::Fail(error) => {
            assert_eq!(error, SpawnCargoError::AcquirePermit { source: outside("full") });
        }
        _ => panic!("the run goes on"),
    }
    assert!(matches!(start, CargoStart::Over));

    let start: CargoStart<u8> = CargoStart::new(execute());
    let (start, _) = start.advance::<u8>(CargoStartEvent::Permitted(Ok(7)));
    let refused = CommanderError::UnexpectedResponseType;
    let event: CargoStartEvent<u8, u8> = CargoStartEvent::Exchanged(Err(refused.clone()));
    match start.advance(event).1 {
        CargoStartAction::Fail(error) => {
            assert_eq!(error, SpawnCargoError::CouldNotStartCargo { source: refused });
        }
        _ => panic!("the run starts"),
    }
}

#[test]
fn messages_have_names() {
    assert_eq!(CoordinatorMessage::Kill.name(), "Kill");
    assert_eq!(CoordinatorMessage::ReadFile(read("a")).name(), "ReadFile");
    assert_eq!(WorkerMessage::Error2(failure("x")).name(), "Error2");
}

#[test]
fn output_of_the_worker_is_decoded_until_it_ends() {
    let message = Multiplexed(1, WorkerMessage::StdoutPacket("x".to_owned()));
    assert_eq!(
        input_step(Decoded::Message(message.clone())),
        InputAction::Forward(message)
    );
    let end = Decoded::UnexpectedEnd(outside("eof"));
    assert!(bincode_input_closed(&end));
    assert_eq!(input_step(end), InputAction::Stop(Ok(())));
    let malformed = Decoded::Malformed(outside("bad"));
    assert!(!bincode_input_closed(&malformed));
    assert_eq!(
        input_step(malformed),
        InputAction::Stop(Err(Error::WorkerMessageDeserialization { source: outside("bad") }))
    );
    assert_eq!(forwarded(Ok(())), Ok(()));
    assert_eq!(
        forwarded(Err(outside("x"))),
        Err(Error::UnableToSendWorkerMessage { source: outside("x") })
    );
}

#[test]
fn messages_are_handed_on_in_order() {
    let message = |n: u64| Multiplexed(n, WorkerMessage::StdoutPacket(n.to_string()));
    let output = vec![
        Decoded::Message(message(1)),
        Decoded::Message(message(2)),
        Decoded::UnexpectedEnd(outside("eof")),
        Decoded::Message(message(3)),
    ];
    let mut handed_on = Vec::new();
    for decoded in output {
        match input_step(decoded) {
            InputAction::Forward(message) => handed_on.push(message),
            InputAction::Stop(outcome) => {
                assert_eq!(outcome, Ok(()));
                break;
            }
        }
    }
    assert_eq!(handed_on, vec![message(1), message(2)]);
}

#[test]
fn input_of_the_worker_is_written_until_it_ends() {
    let message = |n: u64| Multiplexed(n, CoordinatorMessage::Kill);
    let mut queue = OutputQueue::new();
    for n in 0..2 {
        assert_eq!(
            queue.advance(OutputQueueEvent::Next(Some(Some(message(n))))),
            OutputAction::Write(message(n))
        );
        assert_eq!(queue.advance(OutputQueueEvent::Written(Ok(()))), OutputAction::Flush);
        assert_eq!(queue.advance(OutputQueueEvent::Flushed(Ok(()))), OutputAction::Take);
    }
    assert_eq!(queue.advance(OutputQueueEvent::Next(Some(None))), OutputAction::Stop(Ok(())));
    assert_eq!(queue, OutputQueue::Over);
    let mut queue = OutputQueue::new();
    assert_eq!(queue.advance(OutputQueueEvent::Next(None)), OutputAction::Stop(Ok(())));
}

#[test]
fn input_of_the_worker_fails() {
    let next = || OutputQueueEvent::Next(Some(Some(Multiplexed(1, CoordinatorMessage::Kill))));
    let mut queue = OutputQueue::new();
    queue.advance(next());
    assert_eq!(
        queue.advance(OutputQueueEvent::Written(Err(outside("x")))),
        OutputAction::Stop(Err(Error::CoordinatorMessageSerialization { source: outside("x") }))
    );
    let mut queue = OutputQueue::new();
    queue.advance(next());
    queue.advance(OutputQueueEvent::Written(Ok(())));
    assert_eq!(
        queue.advance(OutputQueueEvent::Flushed(Err(outside("x")))),
        OutputAction::Stop(Err(Error::WorkerStdinFlush { source: outside("x") }))
    );
}
