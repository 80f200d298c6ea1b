//! What the coordinator and a worker tell each other.
use crate::text;
use crate::text::quote;
use std::collections::HashMap;
use vstd::prelude::*;
use vstd::string::StringExecFns;

verus! {

/// Identifies one exchange between the coordinator and a worker.
pub type JobId = u64;

/// A message together with the job that it belongs to.
#[derive(Debug, Clone, PartialEq, Eq)]
pub struct Multiplexed<T>(pub JobId, pub T);

/// Asks the worker to write a file.
#[derive(Debug, Clone, PartialEq, Eq)]
pub struct WriteFileRequest {
    pub path: String,
    pub content: Vec<u8>,
}

/// The file was written.
#[derive(Debug, Clone, PartialEq, Eq)]
pub struct WriteFileResponse;

/// Asks the worker to delete a file.
#[derive(Debug, Clone, PartialEq, Eq)]
pub struct DeleteFileRequest {
    pub path: String,
}

/// The file was deleted.
#[derive(Debug, Clone, PartialEq, Eq)]
pub struct DeleteFileResponse;

/// Asks the worker to read a file.
#[derive(Debug, Clone, PartialEq, Eq)]
pub struct ReadFileRequest {
    pub path: String,
}

/// The content of the file.
#[derive(Debug, Clone, PartialEq, Eq)]
pub struct ReadFileResponse(pub Vec<u8>);

/// Asks the worker to run a command.
#[derive(Debug, Clone, PartialEq, Eq)]
pub struct ExecuteCommandRequest {
    pub cmd: String,
    pub args: Vec<String>,
    pub envs: HashMap<String, String>,
    pub cwd: Option<String>,
}

/// How the command ended.
#[derive(Debug, Clone, PartialEq, Eq)]
pub struct ExecuteCommandResponse {
    pub success: bool,
    pub exit_detail: String,
}

/// What a running command uses. The time is the bit pattern of a number of
/// seconds.
#[derive(Debug, Clone, Copy, PartialEq, Eq)]
pub struct CommandStatistics {
    pub total_time_secs_bits: u64,
    pub resident_set_size_bytes: u64,
}

/// An error of the worker, as one line.
#[derive(Debug, Clone, PartialEq, Eq)]
pub struct SerializedError(pub String);

/// An error of the worker and the chain of its causes, the nearest first. It is
/// assumed that a worker sends each error with its message and, nested in it, its
/// cause.
#[derive(Debug, Clone, PartialEq, Eq)]
pub struct SerializedError2 {
    pub message: String,
    pub causes: Vec<String>,
}

impl SerializedError2 {
    /// The same error without a cause.
    pub fn adapt(other: SerializedError) -> (error: SerializedError2)
        ensures
            adapted(other, error),
    {
        SerializedError2 { message: other.0, causes: Vec::new() }
    }

    /// How the error is shown for debugging.
    pub open spec fn shown(self) -> Seq<char> {
        shown_chain(self.message@, text::texts(self.causes@))
    }

    /// How the error is shown for debugging.
    pub fn show(&self) -> (r: String)
        ensures
            r@ == self.shown(),
    {
        let ghost all = text::texts(self.causes@);
        let mut source: String = "None".to_owned();
        let mut i: usize = self.causes.len();
        assert(all.skip(i as int) =~= Seq::<Seq<char>>::empty());
        while i > 0
            invariant
                i <= self.causes@.len(),
                all == text::texts(self.causes@),
                source@ == shown_source(all.skip(i as int)),
            decreases i,
        {
            i = i - 1;
            let cause: String = show_error(self.causes[i].as_str(), source.as_str());
            source = "Some(".to_owned().concat(cause.as_str()).concat(")");
            proof {
                let rest = all.skip(i as int);
                assert(rest[0] == self.causes@[i as int]@);
                assert(rest.skip(1) =~= all.skip(i + 1));
            }
        }
        assert(all.skip(0) =~= all);
        show_error(self.message.as_str(), source.as_str())
    }
}

/// How an error with a cause, shown as `source`, is shown for debugging. The form is
/// assumed: it is that of a structure with the two fields `message` and `source`.
pub open spec fn shown_error(message: Seq<char>, source: Seq<char>) -> Seq<char> {
    "SerializedError2 { message: "@ + text::quoted(message) + ", source: "@ + source + " }"@
}

/// How the cause of an error, and its causes in turn, are shown for debugging.
pub open spec fn shown_source(causes: Seq<Seq<char>>) -> Seq<char>
    decreases causes.len(),
{
    if causes.len() == 0 {
        "None"@
    } else {
        "Some("@ + shown_error(causes[0], shown_source(causes.skip(1))) + ")"@
    }
}

/// How an error and the chain of its causes are shown for debugging.
pub open spec fn shown_chain(message: Seq<char>, causes: Seq<Seq<char>>) -> Seq<char> {
    shown_error(message, shown_source(causes))
}

/// How an error with a cause, shown as `source`, is shown for debugging.
fn show_error(message: &str, source: &str) -> (r: String)
    ensures
        r@ == shown_error(message@, source@),
{
    "SerializedError2 { message: ".to_owned().concat(quote(message).as_str()).concat(
        ", source: ",
    ).concat(source).concat(" }")
}

/// `result` is `error` without a cause.
pub open spec fn adapted(error: SerializedError, result: SerializedError2) -> bool {
    &&& result.message == error.0
    &&& result.causes@.len() == 0
}

/// What the coordinator tells a worker.
#[derive(Debug, Clone, PartialEq, Eq)]
pub enum CoordinatorMessage {
    WriteFile(WriteFileRequest),
    DeleteFile(DeleteFileRequest),
    ReadFile(ReadFileRequest),
    ExecuteCommand(ExecuteCommandRequest),
    StdinPacket(String),
    StdinClose,
    Kill,
}

/// What a worker tells the coordinator.
#[derive(Debug, Clone, PartialEq, Eq)]
pub enum WorkerMessage {
    WriteFile(WriteFileResponse),
    DeleteFile(DeleteFileResponse),
    ReadFile(ReadFileResponse),
    ExecuteCommand(ExecuteCommandResponse),
    StdoutPacket(String),
    StderrPacket(String),
    CommandStatistics(CommandStatistics),
    Error(SerializedError),
    Error2(SerializedError2),
}

/// The name of the kind of a message of the coordinator.
pub open spec fn coordinator_message_name(message: CoordinatorMessage) -> Seq<char> {
    match message {
        CoordinatorMessage::WriteFile(_) => "WriteFile"@,
        CoordinatorMessage::DeleteFile(_) => "DeleteFile"@,
        CoordinatorMessage::ReadFile(_) => "ReadFile"@,
        CoordinatorMessage::ExecuteCommand(_) => "ExecuteCommand"@,
        CoordinatorMessage::StdinPacket(_) => "StdinPacket"@,
        CoordinatorMessage::StdinClose => "StdinClose"@,
        CoordinatorMessage::Kill => "Kill"@,
    }
}

/// The name of the kind of a message of a worker.
pub open spec fn worker_message_name(message: WorkerMessage) -> Seq<char> {
    match message {
        WorkerMessage::WriteFile(_) => "WriteFile"@,
        WorkerMessage::DeleteFile(_) => "DeleteFile"@,
        WorkerMessage::ReadFile(_) => "ReadFile"@,
        WorkerMessage::ExecuteCommand(_) => "ExecuteCommand"@,
        WorkerMessage::StdoutPacket(_) => "StdoutPacket"@,
        WorkerMessage::StderrPacket(_) => "StderrPacket"@,
        WorkerMessage::CommandStatistics(_) => "CommandStatistics"@,
        WorkerMessage::Error(_) => "Error"@,
        WorkerMessage::Error2(_) => "Error2"@,
    }
}

impl CoordinatorMessage {
    /// The name of the kind of this message.
    pub fn name(&self) -> (name: &'static str)
        ensures
            name@ == coordinator_message_name(*self),
    {
        match self {
            CoordinatorMessage::WriteFile(_) => "WriteFile",
            CoordinatorMessage::DeleteFile(_) => "DeleteFile",
            CoordinatorMessage::ReadFile(_) => "ReadFile",
            CoordinatorMessage::ExecuteCommand(_) => "ExecuteCommand",
            CoordinatorMessage::StdinPacket(_) => "StdinPacket",
            CoordinatorMessage::StdinClose => "StdinClose",
            CoordinatorMessage::Kill => "Kill",
        }
    }
}

impl WorkerMessage {
    /// The name of the kind of this message.
    pub fn name(&self) -> (name: &'static str)
        ensures
            name@ == worker_message_name(*self),
    {
        match self {
            WorkerMessage::WriteFile(_) => "WriteFile",
            WorkerMessage::DeleteFile(_) => "DeleteFile",
            WorkerMessage::ReadFile(_) => "ReadFile",
            WorkerMessage::ExecuteCommand(_) => "ExecuteCommand",
            WorkerMessage::StdoutPacket(_) => "StdoutPacket",
            WorkerMessage::StderrPacket(_) => "StderrPacket",
            WorkerMessage::CommandStatistics(_) => "CommandStatistics",
            WorkerMessage::Error(_) => "Error",
            WorkerMessage::Error2(_) => "Error2",
        }
    }
}

/// A request that the worker answers with one response.
pub trait OneToOneResponse: Sized {
    /// What the worker answers when it succeeds.
    type Response;

    /// The message that makes the request.
    spec fn asks(self) -> CoordinatorMessage;

    /// The response that a message holds, if it is one to a request of this
    /// type.
    spec fn answered(message: WorkerMessage) -> Option<Self::Response>;

    /// The message that makes the request.
    fn into_message(self) -> (message: CoordinatorMessage)
        ensures
            message == self.asks(),
    ;

    /// The response that `message` holds, or `message` itself where it is no
    /// response to a request of this type.
    fn from_message(message: WorkerMessage) -> (response: Result<Self::Response, WorkerMessage>)
        ensures
            match response {
                Ok(response) => Self::answered(message) == Some(response),
                Err(other) => other == message && Self::answered(message) is None,
            },
    ;
}

impl OneToOneResponse for WriteFileRequest {
    type Response = WriteFileResponse;

    open spec fn asks(self) -> CoordinatorMessage {
        CoordinatorMessage::WriteFile(self)
    }

    open spec fn answered(message: WorkerMessage) -> Option<WriteFileResponse> {
        match message {
            WorkerMessage::WriteFile(response) => Some(response),
            _ => None,
        }
    }

    fn into_message(self) -> (message: CoordinatorMessage) {
        CoordinatorMessage::WriteFile(self)
    }

    fn from_message(message: WorkerMessage) -> (response: Result<WriteFileResponse, WorkerMessage>) {
        match message {
            WorkerMessage::WriteFile(response) => Ok(response),
            other => Err(other),
        }
    }
}

impl OneToOneResponse for DeleteFileRequest {
    type Response = DeleteFileResponse;

    open spec fn asks(self) -> CoordinatorMessage {
        CoordinatorMessage::DeleteFile(self)
    }

    open spec fn answered(message: WorkerMessage) -> Option<DeleteFileResponse> {
        match message {
            WorkerMessage::DeleteFile(response) => Some(response),
            _ => None,
        }
    }

    fn into_message(self) -> (message: CoordinatorMessage) {
        CoordinatorMessage::DeleteFile(self)
    }

    fn from_message(message: WorkerMessage) -> (response: Result<
        DeleteFileResponse,
        WorkerMessage,
    >) {
        match message {
            WorkerMessage::DeleteFile(response) => Ok(response),
            other => Err(other),
        }
    }
}

impl OneToOneResponse for ReadFileRequest {
    type Response = ReadFileResponse;

    open spec fn asks(self) -> CoordinatorMessage {
        CoordinatorMessage::ReadFile(self)
    }

    open spec fn answered(message: WorkerMessage) -> Option<ReadFileResponse> {
        match message {
            WorkerMessage::ReadFile(response) => Some(response),
            _ => None,
        }
    }

    fn into_message(self) -> (message: CoordinatorMessage) {
        CoordinatorMessage::ReadFile(self)
    }

    fn from_message(message: WorkerMessage) -> (response: Result<ReadFileResponse, WorkerMessage>) {
        match message {
            WorkerMessage::ReadFile(response) => Ok(response),
            other => Err(other),
        }
    }
}

/// An error of one line keeps its text and has no cause.
pub proof fn adapted_error_keeps_its_text(error: SerializedError, result: SerializedError2)
    requires
        adapted(error, result),
    ensures
        result.message@ == error.0@,
        result.causes@.len() == 0,
        result.shown() == "SerializedError2 { message: "@ + text::quoted(error.0@)
            + ", source: "@ + "None"@ + " }"@,
{
    assert(text::texts(result.causes@) =~= Seq::<Seq<char>>::empty());
}

/// An error shows its own text and then, inside, its nearest cause, which shows the rest of
/// the causes in the same way.
pub proof fn causes_are_shown_nested(message: Seq<char>, cause: Seq<char>, rest: Seq<Seq<char>>)
    ensures
        shown_chain(message, Seq::empty()) == "SerializedError2 { message: "@ + text::quoted(
            message,
        ) + ", source: "@ + "None"@ + " }"@,
        shown_chain(message, seq![cause] + rest) == "SerializedError2 { message: "@
            + text::quoted(message) + ", source: "@ + ("Some("@ + shown_chain(cause, rest) + ")"@)
            + " }"@,
{
    let all = seq![cause] + rest;
    assert(all.skip(1) =~= rest);
    assert(all[0] == cause);
}

/// Messages of different kinds have different names, and messages of one kind have the same
/// name whatever they hold.
pub proof fn names_tell_kinds_apart(a: WorkerMessage, b: WorkerMessage)
    ensures
        a is WriteFile ==> worker_message_name(a) == "WriteFile"@,
        a is DeleteFile ==> worker_message_name(a) == "DeleteFile"@,
        a is ReadFile ==> worker_message_name(a) == "ReadFile"@,
        a is ExecuteCommand ==> worker_message_name(a) == "ExecuteCommand"@,
        a is StdoutPacket ==> worker_message_name(a) == "StdoutPacket"@,
        a is StderrPacket ==> worker_message_name(a) == "StderrPacket"@,
        a is CommandStatistics ==> worker_message_name(a) == "CommandStatistics"@,
        a is Error ==> worker_message_name(a) == "Error"@,
        a is Error2 ==> worker_message_name(a) == "Error2"@,
        worker_message_name(a) == worker_message_name(b) ==> {
            &&& (a is WriteFile) == (b is WriteFile)
            &&& (a is DeleteFile) == (b is DeleteFile)
            &&& (a is ReadFile) == (b is ReadFile)
            &&& (a is ExecuteCommand) == (b is ExecuteCommand)
            &&& (a is StdoutPacket) == (b is StdoutPacket)
            &&& (a is StderrPacket) == (b is StderrPacket)
            &&& (a is CommandStatistics) == (b is CommandStatistics)
            &&& (a is Error) == (b is Error)
            &&& (a is Error2) == (b is Error2)
        },
{
    reveal_strlit("WriteFile");
    reveal_strlit("DeleteFile");
    reveal_strlit("ReadFile");
    reveal_strlit("ExecuteCommand");
    reveal_strlit("StdoutPacket");
    reveal_strlit("StderrPacket");
    reveal_strlit("CommandStatistics");
    reveal_strlit("Error");
    reveal_strlit("Error2");
    if worker_message_name(a) == worker_message_name(b) {
        assert(worker_message_name(a).len() == worker_message_name(b).len());
        assert(worker_message_name(a)[3] == worker_message_name(b)[3]);
    }
}

/// A message of the coordinator is named after its kind, whatever it holds.
pub proof fn requests_are_named_after_their_kind(message: CoordinatorMessage)
    ensures
        message is WriteFile ==> coordinator_message_name(message) == "WriteFile"@,
        message is DeleteFile ==> coordinator_message_name(message) == "DeleteFile"@,
        message is ReadFile ==> coordinator_message_name(message) == "ReadFile"@,
        message is ExecuteCommand ==> coordinator_message_name(message) == "ExecuteCommand"@,
        message is StdinPacket ==> coordinator_message_name(message) == "StdinPacket"@,
        message is StdinClose ==> coordinator_message_name(message) == "StdinClose"@,
        message is Kill ==> coordinator_message_name(message) == "Kill"@,
{
}

} // verus!
