//! What happens between a request for a compilation and its response.
use crate::coordinator::error::{
    CommanderError, CompileError, DoRequestError, OutsideError, SpawnCargoError,
};
use crate::coordinator::manifest::{ModifyCargoToml, ModifyCargoTomlError};
use crate::coordinator::message::{
    DeleteFileRequest, DeleteFileResponse, ExecuteCommandRequest, ExecuteCommandResponse,
    ReadFileRequest, ReadFileResponse, WriteFileRequest, WriteFileResponse,
};
use crate::coordinator::request;
use crate::coordinator::manifest;
use crate::coordinator::request::CompileRequest;
use crate::text;
use vstd::prelude::*;

verus! {

/// What a compilation resulted in.
#[derive(Debug, Clone, PartialEq, Eq)]
pub struct CompileResponse {
    pub success: bool,
    pub exit_detail: String,
    pub code: Vec<u8>,
}

/// What the worker is asked to do before Cargo runs, all of it at once.
#[derive(Debug, PartialEq, Eq)]
pub struct PreparationRequests {
    pub delete_previous_main: DeleteFileRequest,
    pub write_main: WriteFileRequest,
    pub modify_cargo_toml: Result<WriteFileRequest, ModifyCargoTomlError>,
}

/// `asked` is what the worker is asked to do before Cargo compiles `code` with a
/// manifest made from `cargo_toml`.
pub open spec fn prepares(
    asked: PreparationRequests,
    code: Seq<char>,
    cargo_toml: manifest::TomlTree,
) -> bool {
    &&& asked.delete_previous_main.path@ == request::PRIMARY_PATH@
    &&& asked.write_main.path@ == request::PRIMARY_PATH@
    &&& asked.write_main.content@ == vstd::utf8::encode_utf8(code)
    &&& match manifest::toml_printed(manifest::manifest_for_compilation(cargo_toml)) {
        Some(printed) => {
            &&& asked.modify_cargo_toml matches Ok(write)
            &&& write.path@ == ModifyCargoToml::PATH@
            &&& write.content@ == vstd::utf8::encode_utf8(printed)
        },
        None => asked.modify_cargo_toml matches Err(
            ModifyCargoTomlError::CouldNotSerialize { .. },
        ),
    }
}

/// `execute` is the command that compiles.
pub open spec fn compiles(execute: ExecuteCommandRequest) -> bool {
    &&& execute.cmd@ == "cargo"@
    &&& text::texts(execute.args@) == seq![
        "wasm"@,
        "--release"@,
        "-o"@,
        CompileRequest::OUTPUT_PATH@,
    ]
    &&& execute.envs@ == Map::<String, String>::empty()
    &&& execute.cwd is None
}

/// Which of the preparations are done, and whether one has failed.
pub struct Preparation {
    deleted: bool,
    written: bool,
    modified: bool,
    failed: bool,
}

/// Which of the preparations are done, and whether one has failed.
pub ghost struct Prepared {
    pub deleted: bool,
    pub written: bool,
    pub modified: bool,
    pub failed: bool,
}

/// How a preparation ended.
#[derive(Debug, PartialEq, Eq)]
pub enum PreparationEvent {
    /// The previous code was deleted, or it was not.
    Deleted(Result<DeleteFileResponse, CommanderError>),
    /// The code was written, or it was not.
    Written(Result<WriteFileResponse, CommanderError>),
    /// The manifest was modified, or it was not.
    Modified(Result<(), ModifyCargoTomlError>),
}

/// What is to be done after a preparation.
#[derive(Debug, PartialEq, Eq)]
pub enum PreparationAction {
    /// Wait for the other preparations.
    Wait,
    /// Run Cargo.
    Execute(ExecuteCommandRequest),
    /// Give up.
    Fail(DoRequestError),
}

impl PreparationEvent {
    /// Whether the preparation failed.
    pub open spec fn failure(self) -> bool {
        match self {
            PreparationEvent::Deleted(end) => end is Err,
            PreparationEvent::Written(end) => end is Err,
            PreparationEvent::Modified(end) => end is Err,
        }
    }
}

impl Prepared {
    /// Nothing has been prepared.
    pub open spec fn nothing() -> Prepared {
        Prepared { deleted: false, written: false, modified: false, failed: false }
    }

    /// Whether `event` can happen now. Nothing is waited for after a failure.
    pub open spec fn expects(self, event: PreparationEvent) -> bool {
        &&& !self.failed
        &&& match event {
            PreparationEvent::Deleted(_) => !self.deleted,
            PreparationEvent::Written(_) => !self.written,
            PreparationEvent::Modified(_) => !self.modified,
        }
    }

    /// What is done after `event`.
    pub open spec fn after(self, event: PreparationEvent) -> Prepared {
        match event {
            PreparationEvent::Deleted(Ok(_)) => Prepared { deleted: true, ..self },
            PreparationEvent::Written(Ok(_)) => Prepared { written: true, ..self },
            PreparationEvent::Modified(Ok(_)) => Prepared { modified: true, ..self },
            _ => Prepared { failed: true, ..self },
        }
    }

    /// `action` is what is to be done when `event` happens.
    pub open spec fn reaction(self, event: PreparationEvent, action: PreparationAction) -> bool {
        match event {
            PreparationEvent::Deleted(Err(source)) => action == PreparationAction::Fail(
                DoRequestError::CouldNotDeletePreviousCode { source },
            ),
            PreparationEvent::Written(Err(source)) => action == PreparationAction::Fail(
                DoRequestError::CouldNotWriteCode { source },
            ),
            PreparationEvent::Modified(Err(source)) => action == PreparationAction::Fail(
                DoRequestError::CouldNotModifyCargoToml { source },
            ),
            _ => {
                let now = self.after(event);
                if now.deleted && now.written && now.modified {
                    action matches PreparationAction::Execute(execute) && compiles(execute)
                } else {
                    action == PreparationAction::Wait
                }
            },
        }
    }
}

impl View for Preparation {
    type V = Prepared;

    closed spec fn view(&self) -> Prepared {
        Prepared {
            deleted: self.deleted,
            written: self.written,
            modified: self.modified,
            failed: self.failed,
        }
    }
}

impl Preparation {
    /// Begins a request: says what the worker is to be asked.
    pub fn do_request(request: &CompileRequest, cargo_toml: &ModifyCargoToml) -> (r: (
        Preparation,
        PreparationRequests,
    ))
        ensures
            r.0@ == Prepared::nothing(),
            prepares(r.1, request.code@, cargo_toml@),
    {
        (
            Preparation { deleted: false, written: false, modified: false, failed: false },
            PreparationRequests {
                delete_previous_main: request.delete_previous_main_request(),
                write_main: request.write_main_request(),
                modify_cargo_toml: cargo_toml.modify_for(request),
            },
        )
    }

    /// Takes the end of a preparation and says what is to be done.
    pub fn advance(&mut self, request: &CompileRequest, event: PreparationEvent) -> (action:
        PreparationAction)
        requires
            old(self)@.expects(event),
        ensures
            final(self)@ == old(self)@.after(event),
            old(self)@.reaction(event, action),
            action matches PreparationAction::Execute(execute) ==> {
                &&& execute.cmd@ == "cargo"@
                &&& text::texts(execute.args@) == seq![
                    "wasm"@,
                    "--release"@,
                    "-o"@,
                    CompileRequest::OUTPUT_PATH@,
                ]
                &&& execute.envs@ == Map::<String, String>::empty()
                &&& execute.cwd is None
            },
    {
        match event {
            PreparationEvent::Deleted(Err(source)) => {
                self.failed = true;
                return PreparationAction::Fail(
                    DoRequestError::CouldNotDeletePreviousCode { source },
                );
            },
            PreparationEvent::Written(Err(source)) => {
                self.failed = true;
                return PreparationAction::Fail(DoRequestError::CouldNotWriteCode { source });
            },
            PreparationEvent::Modified(Err(source)) => {
                self.failed = true;
                return PreparationAction::Fail(DoRequestError::CouldNotModifyCargoToml { source });
            },
            PreparationEvent::Deleted(Ok(_)) => {
                self.deleted = true;
            },
            PreparationEvent::Written(Ok(_)) => {
                self.written = true;
            },
            PreparationEvent::Modified(Ok(_)) => {
                self.modified = true;
            },
        }
        if self.deleted && self.written && self.modified {
            PreparationAction::Execute(request.execute_cargo_request())
        } else {
            PreparationAction::Wait
        }
    }

    /// What it means for the request whether the run of Cargo began.
    pub fn cargo_started<T>(cargo: Result<T, SpawnCargoError>) -> (r: Result<T, DoRequestError>)
        ensures
            r == match cargo {
                Ok(cargo) => Ok::<T, DoRequestError>(cargo),
                Err(source) => Err(DoRequestError::CouldNotStartCargo { source }),
            },
    {
        match cargo {
            Ok(cargo) => Ok(cargo),
            Err(source) => Err(DoRequestError::CouldNotStartCargo { source }),
        }
    }
}

/// What is prepared after all of `events`, one after another.
pub open spec fn prepared_after(events: Seq<PreparationEvent>) -> Prepared
    decreases events.len(),
{
    if events.len() == 0 {
        Prepared::nothing()
    } else {
        prepared_after(events.drop_last()).after(events.last())
    }
}

/// Whether `events` can happen, one after another.
pub open spec fn preparation_expects(events: Seq<PreparationEvent>) -> bool
    decreases events.len(),
{
    events.len() > 0 ==> {
        &&& preparation_expects(events.drop_last())
        &&& prepared_after(events.drop_last()).expects(events.last())
    }
}

/// Cargo runs only when the previous code has been deleted, the code has been
/// written and the manifest has been modified, and nothing has failed.
pub proof fn cargo_runs_on_the_new_code(
    events: Seq<PreparationEvent>,
    last: PreparationEvent,
    action: PreparationAction,
)
    requires
        preparation_expects(events.push(last)),
        prepared_after(events).reaction(last, action),
        action is Execute,
    ensures
        forall|i: int|
            0 <= i <= events.len() ==> !(#[trigger] events.push(last)[i]).failure(),
        exists|i: int|
            0 <= i <= events.len() && (#[trigger] events.push(last)[i] matches PreparationEvent::Deleted(
                Ok(_),
            )),
        exists|i: int|
            0 <= i <= events.len() && (#[trigger] events.push(last)[i] matches PreparationEvent::Written(
                Ok(_),
            )),
        exists|i: int|
            0 <= i <= events.len() && (#[trigger] events.push(
                last,
            )[i] matches PreparationEvent::Modified(Ok(_))),
{
    let all = events.push(last);
    assert(all.drop_last() =~= events);
    assert(prepared_after(all) == prepared_after(events).after(last));
    lemma_prepared(all);
    lemma_no_failure(all);
}

/// Whichever preparation ends last, and whatever happened before, the command that is
/// then executed is `cargo wasm --release -o compilation`, with nothing added to the
/// environment and in the directory of the worker; and where it succeeds, the file
/// that is read is the one that the command was told to write.
pub proof fn cargo_writes_the_file_that_is_read(
    prepared: Prepared,
    last: PreparationEvent,
    action: PreparationAction,
    ended: ExecuteCommandResponse,
    next: CompilationAction,
)
    requires
        prepared.reaction(last, action),
        action is Execute,
        Compilation::Running.reaction(CompilationEvent::CargoEnded(Ok(Ok(ended))), next),
    ensures
        ({
            let execute = action->Execute_0;
            &&& execute.cmd@ == "cargo"@
            &&& execute.args@.len() == 4
            &&& execute.args@[0]@ == "wasm"@
            &&& execute.args@[1]@ == "--release"@
            &&& execute.args@[2]@ == "-o"@
            &&& execute.args@[3]@ == "compilation"@
            &&& execute.envs@ == Map::<String, String>::empty()
            &&& execute.cwd is None
            &&& ended.success ==> (next matches CompilationAction::Read(_, read) && read.path@
                == execute.args@[3]@)
        }),
{
    let execute = action->Execute_0;
    text::texts_are_of_each(execute.args@, Seq::empty());
    let told = text::texts(execute.args@);
    assert(told[0] == "wasm"@ && told[1] == "--release"@ && told[2] == "-o"@ && told[3]
        == CompileRequest::OUTPUT_PATH@);
}

/// Once the previous code has been deleted, the code has been written and the manifest
/// has been modified, in whichever order, and nothing has failed, the command is
/// executed; while one of the three is missing, nothing is done but wait.
pub proof fn cargo_runs_once_all_is_prepared(
    events: Seq<PreparationEvent>,
    last: PreparationEvent,
    action: PreparationAction,
)
    requires
        prepared_after(events).reaction(last, action),
        forall|i: int|
            0 <= i <= events.len() ==> !(#[trigger] events.push(last)[i] matches PreparationEvent::Deleted(
                Err(_),
            )),
        forall|i: int|
            0 <= i <= events.len() ==> !(#[trigger] events.push(last)[i] matches PreparationEvent::Written(
                Err(_),
            )),
        forall|i: int|
            0 <= i <= events.len() ==> !(#[trigger] events.push(
                last,
            )[i] matches PreparationEvent::Modified(Err(_))),
    ensures
        action is Execute || action is Wait,
        action is Execute <==> {
            &&& exists|i: int|
                0 <= i <= events.len() && #[trigger] events.push(last)[i] is Deleted
            &&& exists|i: int|
                0 <= i <= events.len() && #[trigger] events.push(last)[i] is Written
            &&& exists|i: int|
                0 <= i <= events.len() && #[trigger] events.push(last)[i] is Modified
        },
{
    let all = events.push(last);
    assert(all.drop_last() =~= events);
    assert(all[events.len() as int] == last);
    assert(prepared_after(all) == prepared_after(events).after(last));
    lemma_prepared(all);
    lemma_counted(all);
}

proof fn lemma_counted(events: Seq<PreparationEvent>)
    ensures
        forall|i: int|
            0 <= i < events.len() ==> {
                &&& #[trigger] events[i] matches PreparationEvent::Deleted(Ok(_))
                    ==> prepared_after(events).deleted
                &&& events[i] matches PreparationEvent::Written(Ok(_)) ==> prepared_after(
                    events,
                ).written
                &&& events[i] matches PreparationEvent::Modified(Ok(_)) ==> prepared_after(
                    events,
                ).modified
            },
    decreases events.len(),
{
    if events.len() > 0 {
        let before = events.drop_last();
        lemma_counted(before);
        assert(forall|i: int| 0 <= i < before.len() ==> #[trigger] events[i] == before[i]);
    }
}

/// A preparation that fails ends the request at once, with the error of that very
/// preparation, whatever else has been prepared.
pub proof fn failed_preparation_is_told(
    prepared: Prepared,
    source: CommanderError,
    unmodified: ModifyCargoTomlError,
    action: PreparationAction,
)
    ensures
        prepared.reaction(PreparationEvent::Deleted(Err(source)), action) ==> action
            == PreparationAction::Fail(DoRequestError::CouldNotDeletePreviousCode { source }),
        prepared.reaction(PreparationEvent::Written(Err(source)), action) ==> action
            == PreparationAction::Fail(DoRequestError::CouldNotWriteCode { source }),
        prepared.reaction(PreparationEvent::Modified(Err(unmodified)), action) ==> action
            == PreparationAction::Fail(
            DoRequestError::CouldNotModifyCargoToml { source: unmodified },
        ),
{
}

/// The code of a request is written where the previous code is deleted, byte for byte
/// in UTF-8, and reading those bytes back gives the code. The manifest that is written
/// is printed from one that differs from the worker's file, as that was when it was
/// read, in the crate type of the library and in link-time optimisation of the release
/// profile, and in no other entry at any depth.
pub proof fn worker_gets_the_code_and_its_own_manifest(
    file: ReadFileResponse,
    cargo_toml: ModifyCargoToml,
    asked: PreparationRequests,
    code: Seq<char>,
) -> (made: manifest::TomlTree)
    requires
        manifest::read_from(Ok(file), Ok(cargo_toml)),
        prepares(asked, code, cargo_toml@),
    ensures
        asked.delete_previous_main.path@ == "src/lib.rs"@,
        asked.write_main.path@ == "src/lib.rs"@,
        vstd::utf8::valid_utf8(asked.write_main.content@),
        vstd::utf8::decode_utf8(asked.write_main.content@) == code,
        ({
            let parsed = manifest::toml_parsed(vstd::utf8::decode_utf8(file.0@));
            &&& vstd::utf8::valid_utf8(file.0@)
            &&& parsed matches Some(was)
            &&& match manifest::toml_printed(made) {
                Some(printed) => {
                    &&& asked.modify_cargo_toml matches Ok(write)
                    &&& write.path@ == "Cargo.toml"@
                    &&& write.content@ == vstd::utf8::encode_utf8(printed)
                },
                None => asked.modify_cargo_toml matches Err(
                    ModifyCargoTomlError::CouldNotSerialize { .. },
                ),
            }
            &&& was !is Table ==> made == was
            &&& was is Table ==> {
                &&& manifest::entry(made, seq!["lib"@, "crate-type"@]) == Some(
                    manifest::TomlTree::Array(seq![manifest::TomlTree::Text("cdylib"@)]),
                )
                &&& manifest::entry(made, seq!["profile"@, "release"@, "lto"@]) == Some(
                    manifest::TomlTree::Boolean(true),
                )
                &&& forall|path: Seq<Seq<char>>|
                    !manifest::touches(path, seq!["lib"@, "crate-type"@]) && !manifest::touches(
                        path,
                        seq!["profile"@, "release"@, "lto"@],
                    ) ==> #[trigger] manifest::entry(made, path) == manifest::entry(was, path)
            }
        }),
{
    let made = manifest::manifest_for_compilation(cargo_toml@);
    vstd::utf8::encode_utf8_valid_utf8(code);
    vstd::utf8::encode_utf8_decode_utf8(code);
    if cargo_toml@ is Table {
        manifest::manifest_changes_two_entries(cargo_toml@);
        assert forall|path: Seq<Seq<char>>|
            !manifest::touches(path, seq!["lib"@, "crate-type"@]) && !manifest::touches(
                path,
                seq!["profile"@, "release"@, "lto"@],
            ) implies #[trigger] manifest::entry(made, path) == manifest::entry(
            cargo_toml@,
            path,
        ) by {
            manifest::manifest_keeps_entries_at_any_depth(cargo_toml@, path);
        }
    }
    made
}

proof fn lemma_no_failure(events: Seq<PreparationEvent>)
    requires
        preparation_expects(events),
        !prepared_after(events).failed,
    ensures
        forall|i: int| 0 <= i < events.len() ==> !(#[trigger] events[i]).failure(),
    decreases events.len(),
{
    if events.len() > 0 {
        let before = events.drop_last();
        lemma_no_failure(before);
        assert forall|i: int| 0 <= i < events.len() implies !(#[trigger] events[i]).failure() by {
            if i < before.len() {
                assert(events[i] == before[i]);
            }
        }
    }
}

proof fn lemma_prepared(events: Seq<PreparationEvent>)
    ensures
        prepared_after(events).deleted ==> exists|i: int|
            0 <= i < events.len() && (#[trigger] events[i] matches PreparationEvent::Deleted(Ok(_))),
        prepared_after(events).written ==> exists|i: int|
            0 <= i < events.len() && (#[trigger] events[i] matches PreparationEvent::Written(Ok(_))),
        prepared_after(events).modified ==> exists|i: int|
            0 <= i < events.len() && (#[trigger] events[i] matches PreparationEvent::Modified(
                Ok(_),
            )),
    decreases events.len(),
{
    if events.len() > 0 {
        let before = events.drop_last();
        let n = events.len() - 1;
        lemma_prepared(before);
        assert(events[n] == events.last());
        assert(forall|i: int| 0 <= i < n ==> #[trigger] before[i] == events[i]);
        if prepared_after(before).deleted {
            let i = choose|i: int|
                0 <= i < before.len() && (#[trigger] before[i] matches PreparationEvent::Deleted(
                    Ok(_),
                ));
            assert(events[i] == before[i]);
        }
        if prepared_after(before).written {
            let i = choose|i: int|
                0 <= i < before.len() && (#[trigger] before[i] matches PreparationEvent::Written(
                    Ok(_),
                ));
            assert(events[i] == before[i]);
        }
        if prepared_after(before).modified {
            let i = choose|i: int|
                0 <= i < before.len() && (#[trigger] before[i] matches PreparationEvent::Modified(
                    Ok(_),
                ));
            assert(events[i] == before[i]);
        }
    }
}

/// How far a compilation has come once Cargo runs.
#[derive(Debug, PartialEq, Eq)]
pub enum Compilation {
    /// Cargo runs.
    Running,
    /// Cargo has succeeded, and its output is being read.
    Reading { exit_detail: String },
}

/// What happens to a compilation.
#[derive(Debug, PartialEq, Eq)]
pub enum CompilationEvent {
    /// The run of Cargo ended, or its task panicked.
    CargoEnded(Result<Result<ExecuteCommandResponse, SpawnCargoError>, OutsideError>),
    /// The output was read, or it was not.
    OutputRead(Result<ReadFileResponse, CommanderError>),
}

/// What is to be done for a compilation.
#[derive(Debug, PartialEq, Eq)]
pub enum CompilationAction {
    /// Read the output.
    Read(Compilation, ReadFileRequest),
    /// The compilation has ended.
    Finish(Result<CompileResponse, CompileError>),
}

impl Compilation {
    /// What it means for the compilation whether its request started Cargo.
    pub fn begin<T>(cargo: Result<T, DoRequestError>) -> (r: Result<T, CompileError>)
        ensures
            r == match cargo {
                Ok(cargo) => Ok::<T, CompileError>(cargo),
                Err(source) => Err(CompileError::DoRequest { source }),
            },
    {
        match cargo {
            Ok(cargo) => Ok(cargo),
            Err(source) => Err(CompileError::DoRequest { source }),
        }
    }

    /// Whether `event` can happen now.
    pub open spec fn expects(self, event: CompilationEvent) -> bool {
        match self {
            Compilation::Running => event is CargoEnded,
            Compilation::Reading { .. } => event is OutputRead,
        }
    }

    /// `action` is what is to be done when `event` happens.
    pub open spec fn reaction(self, event: CompilationEvent, action: CompilationAction) -> bool {
        match event {
            CompilationEvent::CargoEnded(Err(source)) => action == CompilationAction::Finish(
                Err(CompileError::CargoTaskPanicked { source }),
            ),
            CompilationEvent::CargoEnded(Ok(Err(source))) => action == CompilationAction::Finish(
                Err(CompileError::CargoFailed { source }),
            ),
            CompilationEvent::CargoEnded(Ok(Ok(ended))) => {
                if ended.success {
                    &&& action matches CompilationAction::Read(next, read)
                    &&& next == Compilation::Reading { exit_detail: ended.exit_detail }
                    &&& read.path@ == CompileRequest::OUTPUT_PATH@
                } else {
                    &&& action matches CompilationAction::Finish(Ok(response))
                    &&& !response.success
                    &&& response.exit_detail == ended.exit_detail
                    &&& response.code@.len() == 0
                }
            },
            CompilationEvent::OutputRead(Err(source)) => action == CompilationAction::Finish(
                Err(CompileError::CouldNotReadCode { source }),
            ),
            CompilationEvent::OutputRead(Ok(file)) => {
                &&& action matches CompilationAction::Finish(Ok(response))
                &&& response.success
                &&& Compilation::Reading { exit_detail: response.exit_detail } == self
                &&& response.code == file.0
            },
        }
    }

    /// Takes an event and says what is to be done.
    pub fn advance(self, request: &CompileRequest, event: CompilationEvent) -> (action:
        CompilationAction)
        requires
            self.expects(event),
        ensures
            self.reaction(event, action),
    {
        match (self, event) {
            (Compilation::Running, CompilationEvent::CargoEnded(Err(source))) => {
                CompilationAction::Finish(Err(CompileError::CargoTaskPanicked { source }))
            },
            (Compilation::Running, CompilationEvent::CargoEnded(Ok(Err(source)))) => {
                CompilationAction::Finish(Err(CompileError::CargoFailed { source }))
            },
            (Compilation::Running, CompilationEvent::CargoEnded(Ok(Ok(ended)))) => {
                if ended.success {
                    CompilationAction::Read(
                        Compilation::Reading { exit_detail: ended.exit_detail },
                        request.read_output_request(),
                    )
                } else {
                    CompilationAction::Finish(
                        Ok(
                            CompileResponse {
                                success: false,
                                exit_detail: ended.exit_detail,
                                code: Vec::new(),
                            },
                        ),
                    )
                }
            },
            (Compilation::Reading { .. }, CompilationEvent::OutputRead(Err(source))) => {
                CompilationAction::Finish(Err(CompileError::CouldNotReadCode { source }))
            },
            (Compilation::Reading { exit_detail }, CompilationEvent::OutputRead(Ok(file))) => {
                CompilationAction::Finish(
                    Ok(CompileResponse { success: true, exit_detail, code: file.0 }),
                )
            },
            (_, _) => vstd::pervasive::unreached(),
        }
    }
}

/// A compilation succeeds exactly when Cargo succeeds and its output is read;
/// the response then holds that output, and else it holds no code. It always
/// tells how Cargo exited.
pub proof fn response_tells_how_cargo_ended(
    ended: ExecuteCommandResponse,
    first: CompilationAction,
    read: Result<ReadFileResponse, CommanderError>,
    second: CompilationAction,
)
    requires
        Compilation::Running.reaction(CompilationEvent::CargoEnded(Ok(Ok(ended))), first),
        first matches CompilationAction::Read(next, _) ==> next.reaction(
            CompilationEvent::OutputRead(read),
            second,
        ),
    ensures
        ({
            let last = if first is Read {
                second
            } else {
                first
            };
            &&& last matches CompilationAction::Finish(outcome)
            &&& outcome is Err <==> ended.success && read is Err
            &&& outcome matches Ok(response) ==> {
                &&& response.success == ended.success
                &&& response.exit_detail == ended.exit_detail
                &&& ended.success ==> response.code == read->Ok_0.0
                &&& !ended.success ==> response.code@.len() == 0
            }
        }),
{
}

/// A compilation whose task panicked, whose run of Cargo failed, or whose output could not
/// be read fails with that very cause.
pub proof fn failed_compilation_is_told(
    exit_detail: String,
    panicked: OutsideError,
    failed: SpawnCargoError,
    unread: CommanderError,
    action: CompilationAction,
)
    ensures
        Compilation::Running.reaction(CompilationEvent::CargoEnded(Err(panicked)), action)
            ==> action == CompilationAction::Finish(
            Err(CompileError::CargoTaskPanicked { source: panicked }),
        ),
        Compilation::Running.reaction(CompilationEvent::CargoEnded(Ok(Err(failed))), action)
            ==> action == CompilationAction::Finish(
            Err(CompileError::CargoFailed { source: failed }),
        ),
        (Compilation::Reading { exit_detail }).reaction(
            CompilationEvent::OutputRead(Err(unread)),
            action,
        ) ==> action == CompilationAction::Finish(
            Err(CompileError::CouldNotReadCode { source: unread }),
        ),
{
}

/// Whichever preparation ends last, the command that the worker is told to execute writes
/// the file that the compilation then asks the worker for.
pub proof fn command_writes_what_the_compilation_reads(
    preparation: &mut Preparation,
    request: &CompileRequest,
    last: PreparationEvent,
    action: PreparationAction,
    ended: ExecuteCommandResponse,
    next: CompilationAction,
)
    requires
        call_ensures(Preparation::advance, (preparation, request, last), action),
        action is Execute,
        call_ensures(
            Compilation::advance,
            (Compilation::Running, request, CompilationEvent::CargoEnded(Ok(Ok(ended)))),
            next,
        ),
    ensures
        ({
            let execute = action->Execute_0;
            &&& execute.cmd@ == "cargo"@
            &&& execute.args@.len() == 4
            &&& execute.args@[0]@ == "wasm"@
            &&& execute.args@[1]@ == "--release"@
            &&& execute.args@[2]@ == "-o"@
            &&& execute.envs@ == Map::<String, String>::empty()
            &&& execute.cwd is None
            &&& ended.success ==> (next matches CompilationAction::Read(_, read) && read.path@
                == execute.args@[3]@)
        }),
{
    cargo_writes_the_file_that_is_read(old(preparation)@, last, action, ended, next);
}

/// The manifest that the worker is told to write, for whatever request, is printed from one
/// that has the entries of the worker's own file, but for the crate type of the library and
/// link-time optimisation of the release profile.
pub proof fn manifest_goes_back_to_the_worker(
    file: ReadFileResponse,
    read: Result<ModifyCargoToml, ModifyCargoTomlError>,
    cargo_toml: ModifyCargoToml,
    request: &CompileRequest,
    write: Result<WriteFileRequest, ModifyCargoTomlError>,
) -> (made: manifest::TomlTree)
    requires
        call_ensures(ModifyCargoToml::read, (Ok(file),), read),
        read == Ok::<_, ModifyCargoTomlError>(cargo_toml),
        call_ensures(ModifyCargoToml::modify_for, (&cargo_toml, request), write),
    ensures
        manifest::toml_parsed(vstd::utf8::decode_utf8(file.0@)) matches Some(was) && {
            &&& write is Ok <==> manifest::toml_printed(made) is Some
            &&& write matches Ok(write) ==> {
                &&& write.path@ == "Cargo.toml"@
                &&& manifest::toml_printed(made) == Some(
                    vstd::utf8::decode_utf8(write.content@),
                )
            }
            &&& was !is Table ==> made == was
            &&& was is Table ==> {
                &&& manifest::entry(made, seq!["lib"@, "crate-type"@]) == Some(
                    manifest::TomlTree::Array(seq![manifest::TomlTree::Text("cdylib"@)]),
                )
                &&& manifest::entry(made, seq!["profile"@, "release"@, "lto"@]) == Some(
                    manifest::TomlTree::Boolean(true),
                )
                &&& forall|path: Seq<Seq<char>>|
                    !manifest::touches(path, seq!["lib"@, "crate-type"@]) && !manifest::touches(
                        path,
                        seq!["profile"@, "release"@, "lto"@],
                    ) ==> #[trigger] manifest::entry(made, path) == manifest::entry(was, path)
            }
        },
{
    let was = cargo_toml@;
    let made = manifest::manifest_for_compilation(was);
    match manifest::toml_printed(made) {
        Some(printed) => {
            vstd::utf8::encode_utf8_decode_utf8(printed);
        },
        None => {},
    }
    if was is Table {
        manifest::manifest_changes_two_entries(was);
        assert forall|path: Seq<Seq<char>>|
            !manifest::touches(path, seq!["lib"@, "crate-type"@]) && !manifest::touches(
                path,
                seq!["profile"@, "release"@, "lto"@],
            ) implies #[trigger] manifest::entry(made, path) == manifest::entry(was, path) by {
            manifest::manifest_keeps_entries_at_any_depth(was, path);
        }
    }
    made
}

/// A cause for which Cargo could not be started, or for which a request could not be made,
/// is passed on, and what was started is passed on as it is.
pub proof fn start_of_cargo_is_passed_on<T>(
    cargo: Result<T, SpawnCargoError>,
    made: Result<T, DoRequestError>,
    begun: Result<T, CompileError>,
)
    requires
        call_ensures(Preparation::cargo_started::<T>, (cargo,), made),
        call_ensures(Compilation::begin::<T>, (made,), begun),
    ensures
        match cargo {
            Ok(cargo) => begun == Ok::<T, CompileError>(cargo),
            Err(source) => begun == Err::<T, CompileError>(
                CompileError::DoRequest { source: DoRequestError::CouldNotStartCargo { source } },
            ),
        },
{
}

} // verus!
