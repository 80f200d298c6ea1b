//! What can go wrong, and how it is told.
//!
//! A `source` that comes from outside the library is held by its texts.
use crate::coordinator::manifest::ModifyCargoTomlError;
use crate::coordinator::message::{JobId, SerializedError2};
use crate::text;
use crate::text::{quote, to_decimal};
use vstd::prelude::*;
use vstd::string::StringExecFns;

verus! {

/// An error from outside the library.
#[derive(Debug, Clone, PartialEq, Eq)]
pub struct OutsideError {
    /// How the error is told.
    pub text: String,
    /// How the error is shown for debugging.
    pub debug: String,
}

/// What the owner of the resource limits reports.
pub type ResourceError = OutsideError;

/// How a value called `name` that holds a `source`, shown as `source`, is shown
/// for debugging.
pub open spec fn holding(name: Seq<char>, source: Seq<char>) -> Seq<char> {
    name + " { source: "@ + source + " }"@
}

/// How a value called `name` that holds a `source`, shown as `source`, is shown
/// for debugging.
pub(crate) fn show_holding(name: &str, source: &str) -> (r: String)
    ensures
        r@ == holding(name@, source@),
{
    name.to_owned().concat(" { source: ").concat(source).concat(" }")
}

/// Why the versions of the release channels are not known.
#[derive(Debug, Clone, PartialEq, Eq)]
#[allow(inconsistent_fields)]
pub enum VersionsError {
    Stable { source: VersionsChannelError },
    Beta { source: VersionsChannelError },
    Nightly { source: VersionsChannelError },
}

impl VersionsError {
    /// The text of the error.
    pub open spec fn text(self) -> Seq<char> {
        match self {
            VersionsError::Stable { .. } => "Unable to determine versions for the stable channel"@,
            VersionsError::Beta { .. } => "Unable to determine versions for the beta channel"@,
            VersionsError::Nightly { .. } => {
                "Unable to determine versions for the nightly channel"@
            },
        }
    }

    /// The text of the error.
    pub fn message(&self) -> (r: String)
        ensures
            r@ == self.text(),
    {
        match self {
            VersionsError::Stable { .. } => {
                "Unable to determine versions for the stable channel".to_owned()
            },
            VersionsError::Beta { .. } => {
                "Unable to determine versions for the beta channel".to_owned()
            },
            VersionsError::Nightly { .. } => {
                "Unable to determine versions for the nightly channel".to_owned()
            },
        }
    }
}

/// Why the versions of one release channel are not known.
#[derive(Debug, Clone, PartialEq, Eq)]
#[allow(inconsistent_fields)]
pub enum VersionsChannelError {
    Channel { source: Error },
    Versions { source: ContainerVersionsError },
}

impl VersionsChannelError {
    /// The text of the error.
    pub open spec fn text(self) -> Seq<char> {
        match self {
            VersionsChannelError::Channel { source } => source.text(),
            VersionsChannelError::Versions { source } => source.text(),
        }
    }

    /// The text of the error.
    pub fn message(&self) -> (r: String)
        ensures
            r@ == self.text(),
    {
        match self {
            VersionsChannelError::Channel { source } => source.message(),
            VersionsChannelError::Versions { source } => source.message(),
        }
    }
}

/// Why the versions of the tools in a container are not known.
#[derive(Debug, Clone, PartialEq, Eq)]
#[allow(inconsistent_fields)]
pub enum ContainerVersionsError {
    Rustc { source: VersionError },
    RustcMissing,
    Rustfmt { source: VersionError },
    RustfmtMissing,
    Clippy { source: VersionError },
    ClippyMissing,
    Miri { source: VersionError },
}

impl ContainerVersionsError {
    /// The text of the error.
    pub open spec fn text(self) -> Seq<char> {
        match self {
            ContainerVersionsError::Rustc { .. } => "Failed to get `rustc` version"@,
            ContainerVersionsError::RustcMissing => "`rustc` not executable"@,
            ContainerVersionsError::Rustfmt { .. } => "Failed to get `rustfmt` version"@,
            ContainerVersionsError::RustfmtMissing => "`cargo fmt` not executable"@,
            ContainerVersionsError::Clippy { .. } => "Failed to get clippy version"@,
            ContainerVersionsError::ClippyMissing => "`cargo clippy` not executable"@,
            ContainerVersionsError::Miri { .. } => "Failed to get miri version"@,
        }
    }

    /// The text of the error.
    pub fn message(&self) -> (r: String)
        ensures
            r@ == self.text(),
    {
        match self {
            ContainerVersionsError::Rustc { .. } => "Failed to get `rustc` version".to_owned(),
            ContainerVersionsError::RustcMissing => "`rustc` not executable".to_owned(),
            ContainerVersionsError::Rustfmt { .. } => "Failed to get `rustfmt` version".to_owned(),
            ContainerVersionsError::RustfmtMissing => "`cargo fmt` not executable".to_owned(),
            ContainerVersionsError::Clippy { .. } => "Failed to get clippy version".to_owned(),
            ContainerVersionsError::ClippyMissing => "`cargo clippy` not executable".to_owned(),
            ContainerVersionsError::Miri { .. } => "Failed to get miri version".to_owned(),
        }
    }
}

/// Why the version of one tool is not known.
#[derive(Debug, Clone, PartialEq, Eq)]
#[allow(inconsistent_fields)]
pub enum VersionError {
    SpawnProcess { source: SpawnCargoError },
    TaskPanic { source: OutsideError },
}

impl VersionError {
    /// The text of the error.
    pub open spec fn text(self) -> Seq<char> {
        match self {
            VersionError::SpawnProcess { .. } => "Could not start the process"@,
            VersionError::TaskPanic { .. } => "The task panicked"@,
        }
    }

    /// The text of the error.
    pub fn message(&self) -> (r: String)
        ensures
            r@ == self.text(),
    {
        match self {
            VersionError::SpawnProcess { .. } => "Could not start the process".to_owned(),
            VersionError::TaskPanic { .. } => "The task panicked".to_owned(),
        }
    }
}

/// Why the available crates are not known.
#[derive(Debug, Clone, PartialEq, Eq)]
#[allow(inconsistent_fields)]
pub enum CratesError {
    Start { source: Error },
    Container { source: ContainerCratesError },
}

impl CratesError {
    /// The text of the error.
    pub open spec fn text(self) -> Seq<char> {
        match self {
            CratesError::Start { .. } => "Could not start the container"@,
            CratesError::Container { source } => source.text(),
        }
    }

    /// The text of the error.
    pub fn message(&self) -> (r: String)
        ensures
            r@ == self.text(),
    {
        match self {
            CratesError::Start { .. } => "Could not start the container".to_owned(),
            CratesError::Container { source } => source.message(),
        }
    }
}

/// Why a container does not tell its crates.
#[derive(Debug, Clone, PartialEq, Eq)]
#[allow(inconsistent_fields)]
pub enum ContainerCratesError {
    Read { source: CommanderError },
    Deserialization { source: OutsideError },
}

impl ContainerCratesError {
    /// The text of the error.
    pub open spec fn text(self) -> Seq<char> {
        match self {
            ContainerCratesError::Read { .. } => "Could not read the crate information file"@,
            ContainerCratesError::Deserialization { .. } => {
                "Could not parse the crate information file"@
            },
        }
    }

    /// The text of the error.
    pub fn message(&self) -> (r: String)
        ensures
            r@ == self.text(),
    {
        match self {
            ContainerCratesError::Read { .. } => {
                "Could not read the crate information file".to_owned()
            },
            ContainerCratesError::Deserialization { .. } => {
                "Could not parse the crate information file".to_owned()
            },
        }
    }
}

/// Why a compilation did not end with a response.
#[derive(Debug, Clone, PartialEq, Eq)]
#[allow(inconsistent_fields)]
pub enum CompileError {
    CouldNotStartContainer { source: Error },
    DoRequest { source: DoRequestError },
    CargoTaskPanicked { source: OutsideError },
    CargoFailed { source: SpawnCargoError },
    CouldNotReadCode { source: CommanderError },
    CodeNotUtf8 { source: OutsideError },
}

impl CompileError {
    /// The text of the error.
    pub open spec fn text(self) -> Seq<char> {
        match self {
            CompileError::CouldNotStartContainer { .. } => "Could not start the container"@,
            CompileError::DoRequest { source } => source.text(),
            CompileError::CargoTaskPanicked { .. } => "The Cargo task panicked"@,
            CompileError::CargoFailed { .. } => "Cargo task failed"@,
            CompileError::CouldNotReadCode { .. } => "Could not read the compilation output"@,
            CompileError::CodeNotUtf8 { .. } => "The compilation output was not UTF-8"@,
        }
    }

    /// The text of the error.
    pub fn message(&self) -> (r: String)
        ensures
            r@ == self.text(),
    {
        match self {
            CompileError::CouldNotStartContainer { .. } => {
                "Could not start the container".to_owned()
            },
            CompileError::DoRequest { source } => source.message(),
            CompileError::CargoTaskPanicked { .. } => "The Cargo task panicked".to_owned(),
            CompileError::CargoFailed { .. } => "Cargo task failed".to_owned(),
            CompileError::CouldNotReadCode { .. } => {
                "Could not read the compilation output".to_owned()
            },
            CompileError::CodeNotUtf8 { .. } => "The compilation output was not UTF-8".to_owned(),
        }
    }

    /// How the error is shown for debugging.
    pub open spec fn shown(self) -> Seq<char> {
        match self {
            CompileError::CouldNotStartContainer { source } => {
                holding("CouldNotStartContainer"@, source.shown())
            },
            CompileError::DoRequest { source } => holding("DoRequest"@, source.shown()),
            CompileError::CargoTaskPanicked { source } => {
                holding("CargoTaskPanicked"@, source.debug@)
            },
            CompileError::CargoFailed { source } => holding("CargoFailed"@, source.shown()),
            CompileError::CouldNotReadCode { source } => {
                holding("CouldNotReadCode"@, source.shown())
            },
            CompileError::CodeNotUtf8 { source } => holding("CodeNotUtf8"@, source.debug@),
        }
    }

    /// How the error is shown for debugging.
    pub fn show(&self) -> (r: String)
        ensures
            r@ == self.shown(),
    {
        match self {
            CompileError::CouldNotStartContainer { source } => {
                show_holding("CouldNotStartContainer", source.show().as_str())
            },
            CompileError::DoRequest { source } => {
                show_holding("DoRequest", source.show().as_str())
            },
            CompileError::CargoTaskPanicked { source } => {
                show_holding("CargoTaskPanicked", source.debug.as_str())
            },
            CompileError::CargoFailed { source } => {
                show_holding("CargoFailed", source.show().as_str())
            },
            CompileError::CouldNotReadCode { source } => {
                show_holding("CouldNotReadCode", source.show().as_str())
            },
            CompileError::CodeNotUtf8 { source } => {
                show_holding("CodeNotUtf8", source.debug.as_str())
            },
        }
    }
}

/// Why a request did not start Cargo.
#[derive(Debug, Clone, PartialEq, Eq)]
#[allow(inconsistent_fields)]
pub enum DoRequestError {
    CouldNotModifyCargoToml { source: ModifyCargoTomlError },
    CouldNotDeletePreviousCode { source: CommanderError },
    CouldNotWriteCode { source: CommanderError },
    CouldNotStartCargo { source: SpawnCargoError },
}

impl DoRequestError {
    /// The text of the error.
    pub open spec fn text(self) -> Seq<char> {
        match self {
            DoRequestError::CouldNotModifyCargoToml { .. } => "Could not modify Cargo.toml"@,
            DoRequestError::CouldNotDeletePreviousCode { .. } => {
                "Could not delete previous source code"@
            },
            DoRequestError::CouldNotWriteCode { .. } => "Could not write source code"@,
            DoRequestError::CouldNotStartCargo { .. } => "Could not start Cargo task"@,
        }
    }

    /// The text of the error.
    pub fn message(&self) -> (r: String)
        ensures
            r@ == self.text(),
    {
        match self {
            DoRequestError::CouldNotModifyCargoToml { .. } => {
                "Could not modify Cargo.toml".to_owned()
            },
            DoRequestError::CouldNotDeletePreviousCode { .. } => {
                "Could not delete previous source code".to_owned()
            },
            DoRequestError::CouldNotWriteCode { .. } => "Could not write source code".to_owned(),
            DoRequestError::CouldNotStartCargo { .. } => "Could not start Cargo task".to_owned(),
        }
    }

    /// How the error is shown for debugging.
    pub open spec fn shown(self) -> Seq<char> {
        match self {
            DoRequestError::CouldNotModifyCargoToml { source } => {
                holding("CouldNotModifyCargoToml"@, source.shown())
            },
            DoRequestError::CouldNotDeletePreviousCode { source } => {
                holding("CouldNotDeletePreviousCode"@, source.shown())
            },
            DoRequestError::CouldNotWriteCode { source } => {
                holding("CouldNotWriteCode"@, source.shown())
            },
            DoRequestError::CouldNotStartCargo { source } => {
                holding("CouldNotStartCargo"@, source.shown())
            },
        }
    }

    /// How the error is shown for debugging.
    pub fn show(&self) -> (r: String)
        ensures
            r@ == self.shown(),
    {
        match self {
            DoRequestError::CouldNotModifyCargoToml { source } => {
                show_holding("CouldNotModifyCargoToml", source.show().as_str())
            },
            DoRequestError::CouldNotDeletePreviousCode { source } => {
                show_holding("CouldNotDeletePreviousCode", source.show().as_str())
            },
            DoRequestError::CouldNotWriteCode { source } => {
                show_holding("CouldNotWriteCode", source.show().as_str())
            },
            DoRequestError::CouldNotStartCargo { source } => {
                show_holding("CouldNotStartCargo", source.show().as_str())
            },
        }
    }
}

/// Why a Cargo task did not end with a response.
#[derive(Debug, Clone, PartialEq, Eq)]
#[allow(inconsistent_fields)]
pub enum SpawnCargoError {
    CouldNotStartCargo { source: CommanderError },
    Worker { source: SerializedError2 },
    UnexpectedMessage { message: String },
    UnexpectedEndOfMessages,
    Stdin { source: MultiplexedSenderError },
    Kill { source: MultiplexedSenderError },
    AcquirePermit { source: ResourceError },
}

impl SpawnCargoError {
    /// The text of the error.
    pub open spec fn text(self) -> Seq<char> {
        match self {
            SpawnCargoError::CouldNotStartCargo { .. } => "Could not start Cargo"@,
            SpawnCargoError::Worker { .. } => "The worker operation failed"@,
            SpawnCargoError::UnexpectedMessage { message } => {
                "Received the unexpected message `"@ + message@ + "`"@
            },
            SpawnCargoError::UnexpectedEndOfMessages => "There are no more messages"@,
            SpawnCargoError::Stdin { .. } => "Unable to send stdin message"@,
            SpawnCargoError::Kill { .. } => "Unable to send kill message"@,
            SpawnCargoError::AcquirePermit { .. } => "Could not acquire a process permit"@,
        }
    }

    /// The text of the error.
    pub fn message(&self) -> (r: String)
        ensures
            r@ == self.text(),
    {
        match self {
            SpawnCargoError::CouldNotStartCargo { .. } => "Could not start Cargo".to_owned(),
            SpawnCargoError::Worker { .. } => "The worker operation failed".to_owned(),
            SpawnCargoError::UnexpectedMessage { message } => {
                "Received the unexpected message `".to_owned().concat(message.as_str()).concat("`")
            },
            SpawnCargoError::UnexpectedEndOfMessages => "There are no more messages".to_owned(),
            SpawnCargoError::Stdin { .. } => "Unable to send stdin message".to_owned(),
            SpawnCargoError::Kill { .. } => "Unable to send kill message".to_owned(),
            SpawnCargoError::AcquirePermit { .. } => {
                "Could not acquire a process permit".to_owned()
            },
        }
    }

    /// How the error is shown for debugging.
    pub open spec fn shown(self) -> Seq<char> {
        match self {
            SpawnCargoError::CouldNotStartCargo { source } => {
                holding("CouldNotStartCargo"@, source.shown())
            },
            SpawnCargoError::Worker { source } => holding("Worker"@, source.shown()),
            SpawnCargoError::UnexpectedMessage { message } => {
                "UnexpectedMessage { message: "@ + text::quoted(message@) + " }"@
            },
            SpawnCargoError::UnexpectedEndOfMessages => "UnexpectedEndOfMessages"@,
            SpawnCargoError::Stdin { source } => holding("Stdin"@, source.shown()),
            SpawnCargoError::Kill { source } => holding("Kill"@, source.shown()),
            SpawnCargoError::AcquirePermit { source } => holding("AcquirePermit"@, source.debug@),
        }
    }

    /// How the error is shown for debugging.
    pub fn show(&self) -> (r: String)
        ensures
            r@ == self.shown(),
    {
        match self {
            SpawnCargoError::CouldNotStartCargo { source } => {
                show_holding("CouldNotStartCargo", source.show().as_str())
            },
            SpawnCargoError::Worker { source } => {
                show_holding("Worker", source.show().as_str())
            },
            SpawnCargoError::UnexpectedMessage { message } => {
                "UnexpectedMessage { message: ".to_owned().concat(
                    quote(message.as_str()).as_str(),
                ).concat(" }")
            },
            SpawnCargoError::UnexpectedEndOfMessages => "UnexpectedEndOfMessages".to_owned(),
            SpawnCargoError::Stdin { source } => {
                show_holding("Stdin", source.show().as_str())
            },
            SpawnCargoError::Kill { source } => {
                show_holding("Kill", source.show().as_str())
            },
            SpawnCargoError::AcquirePermit { source } => {
                show_holding("AcquirePermit", source.debug.as_str())
            },
        }
    }
}

/// Why an exchange with the worker failed.
#[derive(Debug, Clone, PartialEq, Eq)]
#[allow(inconsistent_fields)]
pub enum CommanderError {
    DuplicateDemultiplexerClient { job_id: JobId },
    UnableToSendToDemultiplexer { source: OutsideError },
    DemultiplexerDidNotRespond { source: OutsideError },
    UnableToReceiveFromDemultiplexer { source: OutsideError },
    UnableToStartOne { source: MultiplexedSenderError },
    UnableToStartMany { source: MultiplexedSenderError },
    UnexpectedResponseType,
    WorkerOperationFailed { source: SerializedError2 },
}

impl CommanderError {
    /// The text of the error.
    pub open spec fn text(self) -> Seq<char> {
        match self {
            CommanderError::DuplicateDemultiplexerClient { job_id } => {
                "Two listeners subscribed to job "@ + text::decimal(job_id as nat)
            },
            CommanderError::UnableToSendToDemultiplexer { .. } => {
                "Could not send a message to the demultiplexer"@
            },
            CommanderError::DemultiplexerDidNotRespond { .. } => {
                "Could not send a message to the demultiplexer"@
            },
            CommanderError::UnableToReceiveFromDemultiplexer { .. } => {
                "Did not receive a response from the demultiplexer"@
            },
            CommanderError::UnableToStartOne { .. } => {
                "Could not start single request/response interaction"@
            },
            CommanderError::UnableToStartMany { .. } => "Could not start continuous interaction"@,
            CommanderError::UnexpectedResponseType => {
                "Did not receive the expected response type from the worker"@
            },
            CommanderError::WorkerOperationFailed { .. } => "The worker operation failed"@,
        }
    }

    /// The text of the error.
    pub fn message(&self) -> (r: String)
        ensures
            r@ == self.text(),
    {
        match self {
            CommanderError::DuplicateDemultiplexerClient { job_id } => {
                "Two listeners subscribed to job ".to_owned().concat(to_decimal(*job_id).as_str())
            },
            CommanderError::UnableToSendToDemultiplexer { .. } => {
                "Could not send a message to the demultiplexer".to_owned()
            },
            CommanderError::DemultiplexerDidNotRespond { .. } => {
                "Could not send a message to the demultiplexer".to_owned()
            },
            CommanderError::UnableToReceiveFromDemultiplexer { .. } => {
                "Did not receive a response from the demultiplexer".to_owned()
            },
            CommanderError::UnableToStartOne { .. } => {
                "Could not start single request/response interaction".to_owned()
            },
            CommanderError::UnableToStartMany { .. } => {
                "Could not start continuous interaction".to_owned()
            },
            CommanderError::UnexpectedResponseType => {
                "Did not receive the expected response type from the worker".to_owned()
            },
            CommanderError::WorkerOperationFailed { .. } => {
                "The worker operation failed".to_owned()
            },
        }
    }

    /// How the error is shown for debugging.
    pub open spec fn shown(self) -> Seq<char> {
        match self {
            CommanderError::DuplicateDemultiplexerClient { job_id } => {
                "DuplicateDemultiplexerClient { job_id: "@ + text::decimal(job_id as nat) + " }"@
            },
            CommanderError::UnableToSendToDemultiplexer { source } => {
                holding("UnableToSendToDemultiplexer"@, source.debug@)
            },
            CommanderError::DemultiplexerDidNotRespond { source } => {
                holding("DemultiplexerDidNotRespond"@, source.debug@)
            },
            CommanderError::UnableToReceiveFromDemultiplexer { source } => {
                holding("UnableToReceiveFromDemultiplexer"@, source.debug@)
            },
            CommanderError::UnableToStartOne { source } => {
                holding("UnableToStartOne"@, source.shown())
            },
            CommanderError::UnableToStartMany { source } => {
                holding("UnableToStartMany"@, source.shown())
            },
            CommanderError::UnexpectedResponseType => "UnexpectedResponseType"@,
            CommanderError::WorkerOperationFailed { source } => {
                holding("WorkerOperationFailed"@, source.shown())
            },
        }
    }

    /// How the error is shown for debugging.
    pub fn show(&self) -> (r: String)
        ensures
            r@ == self.shown(),
    {
        match self {
            CommanderError::DuplicateDemultiplexerClient { job_id } => {
                "DuplicateDemultiplexerClient { job_id: ".to_owned().concat(
                    to_decimal(*job_id).as_str(),
                ).concat(" }")
            },
            CommanderError::UnableToSendToDemultiplexer { source } => {
                show_holding("UnableToSendToDemultiplexer", source.debug.as_str())
            },
            CommanderError::DemultiplexerDidNotRespond { source } => {
                show_holding("DemultiplexerDidNotRespond", source.debug.as_str())
            },
            CommanderError::UnableToReceiveFromDemultiplexer { source } => {
                show_holding("UnableToReceiveFromDemultiplexer", source.debug.as_str())
            },
            CommanderError::UnableToStartOne { source } => {
                show_holding("UnableToStartOne", source.show().as_str())
            },
            CommanderError::UnableToStartMany { source } => {
                show_holding("UnableToStartMany", source.show().as_str())
            },
            CommanderError::UnexpectedResponseType => "UnexpectedResponseType".to_owned(),
            CommanderError::WorkerOperationFailed { source } => {
                show_holding("WorkerOperationFailed", source.show().as_str())
            },
        }
    }
}

/// Why a container failed.
#[derive(Debug, Clone, PartialEq, Eq)]
#[allow(inconsistent_fields)]
pub enum Error {
    SpawnWorker { source: OutsideError },
    JoinWorker { source: OutsideError },
    DemultiplexerTaskPanicked { source: OutsideError },
    DemultiplexerTaskFailed { source: CommanderError },
    IoQueuePanicked { source: OutsideError },
    KillWorker { source: TerminateContainerError },
    ContainerTaskPanicked { source: OutsideError },
    WorkerStdinCapture,
    WorkerStdoutCapture,
    WorkerStdinFlush { source: OutsideError },
    WorkerMessageDeserialization { source: OutsideError },
    CoordinatorMessageSerialization { source: OutsideError },
    UnableToSendWorkerMessage { source: OutsideError },
    CouldNotLoadCargoToml { source: ModifyCargoTomlError },
    AcquirePermit { source: ResourceError },
}

impl Error {
    /// The text of the error.
    pub open spec fn text(self) -> Seq<char> {
        match self {
            Error::SpawnWorker { .. } => "Reached system process limit"@,
            Error::JoinWorker { .. } => "Unable to join child process"@,
            Error::DemultiplexerTaskPanicked { .. } => "The demultiplexer task panicked"@,
            Error::DemultiplexerTaskFailed { .. } => "The demultiplexer task failed"@,
            Error::IoQueuePanicked { .. } => "The IO queue task panicked"@,
            Error::KillWorker { source } => source.text(),
            Error::ContainerTaskPanicked { .. } => "The container task panicked"@,
            Error::WorkerStdinCapture => "Worker process's stdin not captured"@,
            Error::WorkerStdoutCapture => "Worker process's stdout not captured"@,
            Error::WorkerStdinFlush { .. } => "Failed to flush child stdin"@,
            Error::WorkerMessageDeserialization { .. } => "Failed to deserialize worker message"@,
            Error::CoordinatorMessageSerialization { .. } => {
                "Failed to serialize coordinator message"@
            },
            Error::UnableToSendWorkerMessage { .. } => {
                "Failed to send worker message through channel"@
            },
            Error::CouldNotLoadCargoToml { .. } => "Unable to load original Cargo.toml"@,
            Error::AcquirePermit { .. } => "Could not acquire a container permit"@,
        }
    }

    /// The text of the error.
    pub fn message(&self) -> (r: String)
        ensures
            r@ == self.text(),
    {
        match self {
            Error::SpawnWorker { .. } => "Reached system process limit".to_owned(),
            Error::JoinWorker { .. } => "Unable to join child process".to_owned(),
            Error::DemultiplexerTaskPanicked { .. } => "The demultiplexer task panicked".to_owned(),
            Error::DemultiplexerTaskFailed { .. } => "The demultiplexer task failed".to_owned(),
            Error::IoQueuePanicked { .. } => "The IO queue task panicked".to_owned(),
            Error::KillWorker { source } => source.message(),
            Error::ContainerTaskPanicked { .. } => "The container task panicked".to_owned(),
            Error::WorkerStdinCapture => "Worker process's stdin not captured".to_owned(),
            Error::WorkerStdoutCapture => "Worker process's stdout not captured".to_owned(),
            Error::WorkerStdinFlush { .. } => "Failed to flush child stdin".to_owned(),
            Error::WorkerMessageDeserialization { .. } => {
                "Failed to deserialize worker message".to_owned()
            },
            Error::CoordinatorMessageSerialization { .. } => {
                "Failed to serialize coordinator message".to_owned()
            },
            Error::UnableToSendWorkerMessage { .. } => {
                "Failed to send worker message through channel".to_owned()
            },
            Error::CouldNotLoadCargoToml { .. } => "Unable to load original Cargo.toml".to_owned(),
            Error::AcquirePermit { .. } => "Could not acquire a container permit".to_owned(),
        }
    }

    /// How the error is shown for debugging.
    pub open spec fn shown(self) -> Seq<char> {
        match self {
            Error::SpawnWorker { source } => holding("SpawnWorker"@, source.debug@),
            Error::JoinWorker { source } => holding("JoinWorker"@, source.debug@),
            Error::DemultiplexerTaskPanicked { source } => {
                holding("DemultiplexerTaskPanicked"@, source.debug@)
            },
            Error::DemultiplexerTaskFailed { source } => {
                holding("DemultiplexerTaskFailed"@, source.shown())
            },
            Error::IoQueuePanicked { source } => holding("IoQueuePanicked"@, source.debug@),
            Error::KillWorker { source } => holding("KillWorker"@, source.shown()),
            Error::ContainerTaskPanicked { source } => {
                holding("ContainerTaskPanicked"@, source.debug@)
            },
            Error::WorkerStdinCapture => "WorkerStdinCapture"@,
            Error::WorkerStdoutCapture => "WorkerStdoutCapture"@,
            Error::WorkerStdinFlush { source } => holding("WorkerStdinFlush"@, source.debug@),
            Error::WorkerMessageDeserialization { source } => {
                holding("WorkerMessageDeserialization"@, source.debug@)
            },
            Error::CoordinatorMessageSerialization { source } => {
                holding("CoordinatorMessageSerialization"@, source.debug@)
            },
            Error::UnableToSendWorkerMessage { source } => {
                holding("UnableToSendWorkerMessage"@, source.debug@)
            },
            Error::CouldNotLoadCargoToml { source } => {
                holding("CouldNotLoadCargoToml"@, source.shown())
            },
            Error::AcquirePermit { source } => holding("AcquirePermit"@, source.debug@),
        }
    }

    /// How the error is shown for debugging.
    pub fn show(&self) -> (r: String)
        ensures
            r@ == self.shown(),
    {
        match self {
            Error::SpawnWorker { source } => {
                show_holding("SpawnWorker", source.debug.as_str())
            },
            Error::JoinWorker { source } => {
                show_holding("JoinWorker", source.debug.as_str())
            },
            Error::DemultiplexerTaskPanicked { source } => {
                show_holding("DemultiplexerTaskPanicked", source.debug.as_str())
            },
            Error::DemultiplexerTaskFailed { source } => {
                show_holding("DemultiplexerTaskFailed", source.show().as_str())
            },
            Error::IoQueuePanicked { source } => {
                show_holding("IoQueuePanicked", source.debug.as_str())
            },
            Error::KillWorker { source } => {
                show_holding("KillWorker", source.show().as_str())
            },
            Error::ContainerTaskPanicked { source } => {
                show_holding("ContainerTaskPanicked", source.debug.as_str())
            },
            Error::WorkerStdinCapture => "WorkerStdinCapture".to_owned(),
            Error::WorkerStdoutCapture => "WorkerStdoutCapture".to_owned(),
            Error::WorkerStdinFlush { source } => {
                show_holding("WorkerStdinFlush", source.debug.as_str())
            },
            Error::WorkerMessageDeserialization { source } => {
                show_holding("WorkerMessageDeserialization", source.debug.as_str())
            },
            Error::CoordinatorMessageSerialization { source } => {
                show_holding("CoordinatorMessageSerialization", source.debug.as_str())
            },
            Error::UnableToSendWorkerMessage { source } => {
                show_holding("UnableToSendWorkerMessage", source.debug.as_str())
            },
            Error::CouldNotLoadCargoToml { source } => {
                show_holding("CouldNotLoadCargoToml", source.show().as_str())
            },
            Error::AcquirePermit { source } => {
                show_holding("AcquirePermit", source.debug.as_str())
            },
        }
    }
}

/// A message could not be sent to the worker.
#[derive(Debug, Clone, PartialEq, Eq)]
pub struct MultiplexedSenderError {
    pub source: OutsideError,
}

impl MultiplexedSenderError {
    /// The text of the error.
    pub fn message(&self) -> (r: String)
        ensures
            r@ == "Could not send a message to the worker"@,
    {
        "Could not send a message to the worker".to_owned()
    }

    /// How the error is shown for debugging.
    pub open spec fn shown(self) -> Seq<char> {
        holding("MultiplexedSenderError"@, self.source.debug@)
    }

    /// How the error is shown for debugging.
    pub fn show(&self) -> (r: String)
        ensures
            r@ == self.shown(),
    {
        show_holding("MultiplexedSenderError", self.source.debug.as_str())
    }
}

/// A container could not be killed.
#[derive(Debug, Clone, PartialEq, Eq)]
pub struct TerminateContainerError {
    pub name: String,
    pub source: OutsideError,
}

impl TerminateContainerError {
    /// The text of the error.
    pub open spec fn text(self) -> Seq<char> {
        "Unable to kill the Docker container "@ + self.name@
    }

    /// The text of the error.
    pub fn message(&self) -> (r: String)
        ensures
            r@ == self.text(),
    {
        "Unable to kill the Docker container ".to_owned().concat(self.name.as_str())
    }

    /// How the error is shown for debugging.
    pub open spec fn shown(self) -> Seq<char> {
        "TerminateContainerError { name: "@ + text::quoted(self.name@) + ", source: "@
            + self.source.debug@ + " }"@
    }

    /// How the error is shown for debugging.
    pub fn show(&self) -> (r: String)
        ensures
            r@ == self.shown(),
    {
        "TerminateContainerError { name: ".to_owned().concat(
            quote(self.name.as_str()).as_str(),
        ).concat(", source: ").concat(self.source.debug.as_str()).concat(" }")
    }
}

/// Failures to learn the versions of a release channel have a fixed text for each kind,
/// whatever their cause.
pub proof fn versions_errors_are_told(error: VersionsError)
    ensures
        match error {
            VersionsError::Stable { .. } => {
                error.text() == "Unable to determine versions for the stable channel"@
            },
            VersionsError::Beta { .. } => {
                error.text() == "Unable to determine versions for the beta channel"@
            },
            VersionsError::Nightly { .. } => {
                error.text() == "Unable to determine versions for the nightly channel"@
            },
        },
{
}

/// Failures to learn the versions of one channel have a fixed text for each kind, whatever
/// their cause.
pub proof fn channel_errors_are_told(error: VersionsChannelError)
    ensures
        match error {
            VersionsChannelError::Channel { source } => error.text() == source.text(),
            VersionsChannelError::Versions { source } => error.text() == source.text(),
        },
{
}

/// Failures to learn the versions in a container have a fixed text for each kind, whatever
/// their cause.
pub proof fn container_versions_errors_are_told(error: ContainerVersionsError)
    ensures
        match error {
            ContainerVersionsError::Rustc { .. } => {
                error.text() == "Failed to get `rustc` version"@
            },
            ContainerVersionsError::RustcMissing => error.text() == "`rustc` not executable"@,
            ContainerVersionsError::Rustfmt { .. } => {
                error.text() == "Failed to get `rustfmt` version"@
            },
            ContainerVersionsError::RustfmtMissing => error.text() == "`cargo fmt` not executable"@,
            ContainerVersionsError::Clippy { .. } => {
                error.text() == "Failed to get clippy version"@
            },
            ContainerVersionsError::ClippyMissing => {
                error.text() == "`cargo clippy` not executable"@
            },
            ContainerVersionsError::Miri { .. } => error.text() == "Failed to get miri version"@,
        },
{
}

/// Failures to learn the version of a tool have a fixed text for each kind, whatever their cause.
pub proof fn version_errors_are_told(error: VersionError)
    ensures
        match error {
            VersionError::SpawnProcess { .. } => error.text() == "Could not start the process"@,
            VersionError::TaskPanic { .. } => error.text() == "The task panicked"@,
        },
{
}

/// Failures to learn the crates have a fixed text for each kind, whatever their cause.
pub proof fn crates_errors_are_told(error: CratesError)
    ensures
        match error {
            CratesError::Start { .. } => error.text() == "Could not start the container"@,
            CratesError::Container { source } => error.text() == source.text(),
        },
{
}

/// Failures to learn the crates in a container have a fixed text for each kind, whatever their
/// cause.
pub proof fn container_crates_errors_are_told(error: ContainerCratesError)
    ensures
        match error {
            ContainerCratesError::Read { .. } => {
                error.text() == "Could not read the crate information file"@
            },
            ContainerCratesError::Deserialization { .. } => {
                error.text() == "Could not parse the crate information file"@
            },
        },
{
}

/// A failed compilation has a fixed text for each kind, whatever its cause, and is shown for
/// debugging as its kind with the whole of its cause inside.
pub proof fn compile_errors_are_told(error: CompileError)
    ensures
        match error {
            CompileError::CouldNotStartContainer { .. } => {
                error.text() == "Could not start the container"@
            },
            CompileError::DoRequest { source } => error.text() == source.text(),
            CompileError::CargoTaskPanicked { .. } => error.text() == "The Cargo task panicked"@,
            CompileError::CargoFailed { .. } => error.text() == "Cargo task failed"@,
            CompileError::CouldNotReadCode { .. } => {
                error.text() == "Could not read the compilation output"@
            },
            CompileError::CodeNotUtf8 { .. } => {
                error.text() == "The compilation output was not UTF-8"@
            },
        },
        match error {
            CompileError::CouldNotStartContainer { source } => {
                error.shown() == "CouldNotStartContainer"@ + " { source: "@ + source.shown() + " }"@
            },
            CompileError::DoRequest { source } => {
                error.shown() == "DoRequest"@ + " { source: "@ + source.shown() + " }"@
            },
            CompileError::CargoTaskPanicked { source } => {
                error.shown() == "CargoTaskPanicked"@ + " { source: "@ + source.debug@ + " }"@
            },
            CompileError::CargoFailed { source } => {
                error.shown() == "CargoFailed"@ + " { source: "@ + source.shown() + " }"@
            },
            CompileError::CouldNotReadCode { source } => {
                error.shown() == "CouldNotReadCode"@ + " { source: "@ + source.shown() + " }"@
            },
            CompileError::CodeNotUtf8 { source } => {
                error.shown() == "CodeNotUtf8"@ + " { source: "@ + source.debug@ + " }"@
            },
        },
{
}

/// A request that could not be made has a fixed text for each kind, whatever its cause, and
/// is shown for debugging as its kind with the whole of its cause inside.
pub proof fn request_errors_are_told(error: DoRequestError)
    ensures
        match error {
            DoRequestError::CouldNotModifyCargoToml { .. } => {
                error.text() == "Could not modify Cargo.toml"@
            },
            DoRequestError::CouldNotDeletePreviousCode { .. } => {
                error.text() == "Could not delete previous source code"@
            },
            DoRequestError::CouldNotWriteCode { .. } => {
                error.text() == "Could not write source code"@
            },
            DoRequestError::CouldNotStartCargo { .. } => {
                error.text() == "Could not start Cargo task"@
            },
        },
        match error {
            DoRequestError::CouldNotModifyCargoToml { source } => {
                error.shown() == "CouldNotModifyCargoToml"@ + " { source: "@ + source.shown()
                    + " }"@
            },
            DoRequestError::CouldNotDeletePreviousCode { source } => {
                error.shown() == "CouldNotDeletePreviousCode"@ + " { source: "@
                    + source.shown() + " }"@
            },
            DoRequestError::CouldNotWriteCode { source } => {
                error.shown() == "CouldNotWriteCode"@ + " { source: "@ + source.shown() + " }"@
            },
            DoRequestError::CouldNotStartCargo { source } => {
                error.shown() == "CouldNotStartCargo"@ + " { source: "@ + source.shown() + " }"@
            },
        },
{
}

/// A failed run of Cargo has a fixed text for each kind, whatever its cause, and is shown for
/// debugging as its kind with the whole of its cause inside.
pub proof fn cargo_errors_are_told(error: SpawnCargoError)
    ensures
        match error {
            SpawnCargoError::CouldNotStartCargo { .. } => error.text() == "Could not start Cargo"@,
            SpawnCargoError::Worker { .. } => error.text() == "The worker operation failed"@,
            SpawnCargoError::UnexpectedMessage { message } => {
                error.text() == "Received the unexpected message `"@ + message@ + "`"@
            },
            SpawnCargoError::UnexpectedEndOfMessages => {
                error.text() == "There are no more messages"@
            },
            SpawnCargoError::Stdin { .. } => error.text() == "Unable to send stdin message"@,
            SpawnCargoError::Kill { .. } => error.text() == "Unable to send kill message"@,
            SpawnCargoError::AcquirePermit { .. } => {
                error.text() == "Could not acquire a process permit"@
            },
        },
        match error {
            SpawnCargoError::CouldNotStartCargo { source } => {
                error.shown() == "CouldNotStartCargo"@ + " { source: "@ + source.shown() + " }"@
            },
            SpawnCargoError::Worker { source } => {
                error.shown() == "Worker"@ + " { source: "@ + source.shown() + " }"@
            },
            SpawnCargoError::UnexpectedMessage { message } => {
                error.shown() == "UnexpectedMessage { message: "@ + text::quoted(message@) + " }"@
            },
            SpawnCargoError::UnexpectedEndOfMessages => error.shown() == "UnexpectedEndOfMessages"@,
            SpawnCargoError::Stdin { source } => {
                error.shown() == "Stdin"@ + " { source: "@ + source.shown() + " }"@
            },
            SpawnCargoError::Kill { source } => {
                error.shown() == "Kill"@ + " { source: "@ + source.shown() + " }"@
            },
            SpawnCargoError::AcquirePermit { source } => {
                error.shown() == "AcquirePermit"@ + " { source: "@ + source.debug@ + " }"@
            },
        },
{
}

/// A failed exchange with a worker has a fixed text for each kind, whatever its cause, and
/// is shown for debugging as its kind with the whole of its cause inside.
pub proof fn exchange_errors_are_told(error: CommanderError)
    ensures
        match error {
            CommanderError::DuplicateDemultiplexerClient { job_id } => {
                error.text() == "Two listeners subscribed to job "@ + text::decimal(job_id as nat)
            },
            CommanderError::UnableToSendToDemultiplexer { .. } => {
                error.text() == "Could not send a message to the demultiplexer"@
            },
            CommanderError::DemultiplexerDidNotRespond { .. } => {
                error.text() == "Could not send a message to the demultiplexer"@
            },
            CommanderError::UnableToReceiveFromDemultiplexer { .. } => {
                error.text() == "Did not receive a response from the demultiplexer"@
            },
            CommanderError::UnableToStartOne { .. } => {
                error.text() == "Could not start single request/response interaction"@
            },
            CommanderError::UnableToStartMany { .. } => {
                error.text() == "Could not start continuous interaction"@
            },
            CommanderError::UnexpectedResponseType => {
                error.text() == "Did not receive the expected response type from the worker"@
            },
            CommanderError::WorkerOperationFailed { .. } => {
                error.text() == "The worker operation failed"@
            },
        },
        match error {
            CommanderError::DuplicateDemultiplexerClient { job_id } => {
                error.shown() == "DuplicateDemultiplexerClient { job_id: "@
                    + text::decimal(job_id as nat) + " }"@
            },
            CommanderError::UnableToSendToDemultiplexer { source } => {
                error.shown() == "UnableToSendToDemultiplexer"@ + " { source: "@
                    + source.debug@ + " }"@
            },
            CommanderError::DemultiplexerDidNotRespond { source } => {
                error.shown() == "DemultiplexerDidNotRespond"@ + " { source: "@
                    + source.debug@ + " }"@
            },
            CommanderError::UnableToReceiveFromDemultiplexer { source } => {
                error.shown() == "UnableToReceiveFromDemultiplexer"@ + " { source: "@
                    + source.debug@ + " }"@
            },
            CommanderError::UnableToStartOne { source } => {
                error.shown() == "UnableToStartOne"@ + " { source: "@ + source.shown() + " }"@
            },
            CommanderError::UnableToStartMany { source } => {
                error.shown() == "UnableToStartMany"@ + " { source: "@ + source.shown() + " }"@
            },
            CommanderError::UnexpectedResponseType => error.shown() == "UnexpectedResponseType"@,
            CommanderError::WorkerOperationFailed { source } => {
                error.shown() == "WorkerOperationFailed"@ + " { source: "@ + source.shown() + " }"@
            },
        },
{
}

/// A failed container has a fixed text for each kind, whatever its cause, and is shown for
/// debugging as its kind with the whole of its cause inside.
pub proof fn container_errors_are_told(error: Error)
    ensures
        match error {
            Error::SpawnWorker { .. } => error.text() == "Reached system process limit"@,
            Error::JoinWorker { .. } => error.text() == "Unable to join child process"@,
            Error::DemultiplexerTaskPanicked { .. } => {
                error.text() == "The demultiplexer task panicked"@
            },
            Error::DemultiplexerTaskFailed { .. } => {
                error.text() == "The demultiplexer task failed"@
            },
            Error::IoQueuePanicked { .. } => error.text() == "The IO queue task panicked"@,
            Error::KillWorker { source } => error.text() == source.text(),
            Error::ContainerTaskPanicked { .. } => error.text() == "The container task panicked"@,
            Error::WorkerStdinCapture => error.text() == "Worker process's stdin not captured"@,
            Error::WorkerStdoutCapture => error.text() == "Worker process's stdout not captured"@,
            Error::WorkerStdinFlush { .. } => error.text() == "Failed to flush child stdin"@,
            Error::WorkerMessageDeserialization { .. } => {
                error.text() == "Failed to deserialize worker message"@
            },
            Error::CoordinatorMessageSerialization { .. } => {
                error.text() == "Failed to serialize coordinator message"@
            },
            Error::UnableToSendWorkerMessage { .. } => {
                error.text() == "Failed to send worker message through channel"@
            },
            Error::CouldNotLoadCargoToml { .. } => {
                error.text() == "Unable to load original Cargo.toml"@
            },
            Error::AcquirePermit { .. } => error.text() == "Could not acquire a container permit"@,
        },
        match error {
            Error::SpawnWorker { source } => {
                error.shown() == "SpawnWorker"@ + " { source: "@ + source.debug@ + " }"@
            },
            Error::JoinWorker { source } => {
                error.shown() == "JoinWorker"@ + " { source: "@ + source.debug@ + " }"@
            },
            Error::DemultiplexerTaskPanicked { source } => {
                error.shown() == "DemultiplexerTaskPanicked"@ + " { source: "@
                    + source.debug@ + " }"@
            },
            Error::DemultiplexerTaskFailed { source } => {
                error.shown() == "DemultiplexerTaskFailed"@ + " { source: "@ + source.shown()
                    + " }"@
            },
            Error::IoQueuePanicked { source } => {
                error.shown() == "IoQueuePanicked"@ + " { source: "@ + source.debug@ + " }"@
            },
            Error::KillWorker { source } => {
                error.shown() == "KillWorker"@ + " { source: "@ + source.shown() + " }"@
            },
            Error::ContainerTaskPanicked { source } => {
                error.shown() == "ContainerTaskPanicked"@ + " { source: "@ + source.debug@ + " }"@
            },
            Error::WorkerStdinCapture => error.shown() == "WorkerStdinCapture"@,
            Error::WorkerStdoutCapture => error.shown() == "WorkerStdoutCapture"@,
            Error::WorkerStdinFlush { source } => {
                error.shown() == "WorkerStdinFlush"@ + " { source: "@ + source.debug@ + " }"@
            },
            Error::WorkerMessageDeserialization { source } => {
                error.shown() == "WorkerMessageDeserialization"@ + " { source: "@
                    + source.debug@ + " }"@
            },
            Error::CoordinatorMessageSerialization { source } => {
                error.shown() == "CoordinatorMessageSerialization"@ + " { source: "@
                    + source.debug@ + " }"@
            },
            Error::UnableToSendWorkerMessage { source } => {
                error.shown() == "UnableToSendWorkerMessage"@ + " { source: "@
                    + source.debug@ + " }"@
            },
            Error::CouldNotLoadCargoToml { source } => {
                error.shown() == "CouldNotLoadCargoToml"@ + " { source: "@ + source.shown() + " }"@
            },
            Error::AcquirePermit { source } => {
                error.shown() == "AcquirePermit"@ + " { source: "@ + source.debug@ + " }"@
            },
        },
{
}

/// A container that could not be killed is told by the whole of its name, and shown for
/// debugging with its name in quotation marks and with the whole of the cause; a message
/// that could not be sent shows the whole of its cause.
pub proof fn termination_errors_are_told(
    error: TerminateContainerError,
    unsent: MultiplexedSenderError,
)
    ensures
        error.text() == "Unable to kill the Docker container "@ + error.name@,
        error.shown() == "TerminateContainerError { name: "@ + text::quoted(error.name@)
            + ", source: "@ + error.source.debug@ + " }"@,
        unsent.shown() == "MultiplexedSenderError"@ + " { source: "@ + unsent.source.debug@
            + " }"@,
{
}

/// Errors are told and shown as is said of them here.
pub proof fn errors_are_told_as_stated(
    compile: CompileError,
    compile_text: String,
    compile_shown: String,
    request: DoRequestError,
    request_text: String,
    request_shown: String,
    cargo: SpawnCargoError,
    cargo_text: String,
    cargo_shown: String,
    exchange: CommanderError,
    exchange_text: String,
    exchange_shown: String,
    container: Error,
    container_text: String,
    container_shown: String,
)
    requires
        call_ensures(CompileError::message, (&compile,), compile_text),
        call_ensures(CompileError::show, (&compile,), compile_shown),
        call_ensures(DoRequestError::message, (&request,), request_text),
        call_ensures(DoRequestError::show, (&request,), request_shown),
        call_ensures(SpawnCargoError::message, (&cargo,), cargo_text),
        call_ensures(SpawnCargoError::show, (&cargo,), cargo_shown),
        call_ensures(CommanderError::message, (&exchange,), exchange_text),
        call_ensures(CommanderError::show, (&exchange,), exchange_shown),
        call_ensures(Error::message, (&container,), container_text),
        call_ensures(Error::show, (&container,), container_shown),
    ensures
        compile_text@ == compile.text(),
        compile_shown@ == compile.shown(),
        request_text@ == request.text(),
        request_shown@ == request.shown(),
        cargo_text@ == cargo.text(),
        cargo_shown@ == cargo.shown(),
        exchange_text@ == exchange.text(),
        exchange_shown@ == exchange.shown(),
        container_text@ == container.text(),
        container_shown@ == container.shown(),
{
}

} // verus!
