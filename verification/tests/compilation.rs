use service_compiler::coordinator::compilation::{
    Compilation, CompilationAction, CompilationEvent, CompileResponse, Preparation,
    PreparationAction, PreparationEvent,
};
use service_compiler::coordinator::error::{
    CommanderError, CompileError, DoRequestError, OutsideError, SpawnCargoError,
};
use service_compiler::coordinator::manifest::{
    set_crate_type, set_release_lto, ModifyCargoToml, ModifyCargoTomlError,
};
use service_compiler::coordinator::message::{
    DeleteFileRequest, DeleteFileResponse, ExecuteCommandResponse, ReadFileRequest,
    ReadFileResponse, WriteFileRequest, WriteFileResponse,
};
use service_compiler::coordinator::output::{Absorption, OutputEvent, WithOutput};
use service_compiler::coordinator::request::CompileRequest;

fn request(code: &str) -> CompileRequest {
    CompileRequest { code: code.to_owned() }
}

fn outside(text: &str) -> OutsideError {
    OutsideError { text: text.to_owned(), debug: format!("Custom({text:?})") }
}

fn manifest(text: &str) -> ModifyCargoToml {
    ModifyCargoToml::read(Ok(ReadFileResponse(text.as_bytes().to_vec()))).ok().unwrap()
}

fn parsed(text: &str) -> toml::Value {
    toml::from_str(text).unwrap()
}

#[test]
fn code_is_written_to_the_library_file() {
    let request = request("fn é() {}");
    assert_eq!(
        request.delete_previous_main_request(),
        DeleteFileRequest { path: "src/lib.rs".to_owned() }
    );
    assert_eq!(
        request.write_main_request(),
        WriteFileRequest {
            path: "src/lib.rs".to_owned(),
            content: "fn é() {}".as_bytes().to_vec()
        }
    );
    assert_eq!(
        request.read_output_request(),
        ReadFileRequest { path: "compilation".to_owned() }
    );
    let cargo = request.execute_cargo_request();
    assert_eq!(cargo.cmd, "cargo");
    assert_eq!(cargo.args, vec!["wasm", "--release", "-o", "compilation"]);
    assert!(cargo.envs.is_empty());
    assert_eq!(cargo.cwd, None);
}

#[test]
fn crate_type_is_set() {
    assert_eq!(
        set_crate_type(parsed(""), "cdylib"),
        parsed("[lib]\ncrate-type = [\"cdylib\"]")
    );
    assert_eq!(
        set_crate_type(parsed("[lib]\npath = \"x\"\ncrate-type = [\"rlib\"]"), "cdylib"),
        parsed("[lib]\npath = \"x\"\ncrate-type = [\"cdylib\"]")
    );
}

#[test]
fn release_lto_is_set() {
    assert_eq!(
        set_release_lto(parsed(""), true),
        parsed("[profile.release]\nlto = true")
    );
    assert_eq!(
        set_release_lto(parsed("[profile.dev]\nopt-level = 1\n[profile.release]\ndebug = true"), false),
        parsed("[profile.dev]\nopt-level = 1\n[profile.release]\ndebug = true\nlto = false")
    );
}

#[test]
fn manifest_is_modified_for_a_request() {
    let text = "[package]\nname = \"x\"\nversion = \"0.1.0\"\n\n[dependencies]\nserde = \"1\"\n";
    let write = manifest(text).modify_for(&request("")).unwrap();
    assert_eq!(write.path, "Cargo.toml");
    let written = String::from_utf8(write.content).unwrap();
    let expected = format!("{text}[lib]\ncrate-type = [\"cdylib\"]\n[profile.release]\nlto = true\n");
    assert_eq!(parsed(&written), parsed(&expected));
    // The manifest for a manifest that was modified is the same.
    let again = manifest(&written).modify_for(&request("")).unwrap();
    assert_eq!(String::from_utf8(again.content).unwrap(), written);
}

#[test]
fn manifest_that_is_no_table_stays_as_it_is() {
    let date = parsed("\"$__toml_private_datetime\" = \"1979-05-27\"");
    assert!(date.is_datetime());
    assert_eq!(set_crate_type(date.clone(), "cdylib"), date);
    assert_eq!(set_release_lto(date.clone(), true), date);
    let read = manifest("\"$__toml_private_datetime\" = \"1979-05-27\"");
    let write = read.modify_for(&request("")).unwrap();
    assert_eq!(String::from_utf8(write.content).unwrap(), toml::to_string(&date).unwrap());
}

#[test]
fn manifest_errors_are_told() {
    assert_eq!(ModifyCargoToml::read_request().path, "Cargo.toml");
    let source = CommanderError::UnexpectedResponseType;
    assert_eq!(
        ModifyCargoToml::read(Err(source.clone())).err(),
        Some(ModifyCargoTomlError::CouldNotRead { source: source.clone() })
    );
    assert!(matches!(
        ModifyCargoToml::read(Ok(ReadFileResponse(vec![0xc0]))),
        Err(ModifyCargoTomlError::InvalidUtf8 { .. })
    ));
    assert!(matches!(
        ModifyCargoToml::read(Ok(ReadFileResponse(b"a = ".to_vec()))),
        Err(ModifyCargoTomlError::CouldNotDeserialize { .. })
    ));
    assert_eq!(ModifyCargoToml::written(Ok(WriteFileResponse)), Ok(()));
    assert_eq!(
        ModifyCargoToml::written(Err(source.clone())),
        Err(ModifyCargoTomlError::CouldNotWrite { source })
    );
    let serialize = ModifyCargoTomlError::CouldNotSerialize { source: outside("s") };
    assert_eq!(serialize.message(), "Could not serialize the file as TOML");
}

#[test]
fn cargo_runs_when_everything_is_prepared() {
    let request = request("pub fn alpha() {}");
    let (mut preparation, asked) = Preparation::do_request(&request, &manifest(""));
    assert_eq!(asked.delete_previous_main, request.delete_previous_main_request());
    assert_eq!(asked.write_main, request.write_main_request());
    assert!(asked.modify_cargo_toml.is_ok());
    let deleted = PreparationEvent::Deleted(Ok(DeleteFileResponse));
    assert_eq!(preparation.advance(&request, deleted), PreparationAction::Wait);
    let modified = PreparationEvent::Modified(Ok(()));
    assert_eq!(preparation.advance(&request, modified), PreparationAction::Wait);
    let written = PreparationEvent::Written(Ok(WriteFileResponse));
    assert_eq!(
        preparation.advance(&request, written),
        PreparationAction::Execute(request.execute_cargo_request())
    );
}

#[test]
fn preparation_fails() {
    let request = request("");
    let source = CommanderError::UnableToSendToDemultiplexer { source: outside("x") };
    let fail = |event: PreparationEvent| -> DoRequestError {
        let (mut preparation, _) = Preparation::do_request(&request, &manifest(""));
        match preparation.advance(&request, event) {
            PreparationAction::Fail(error) => error,
            other => panic!("{other:?}"),
        }
    };
    assert_eq!(
        fail(PreparationEvent::Deleted(Err(source.clone()))),
        DoRequestError::CouldNotDeletePreviousCode { source: source.clone() }
    );
    assert_eq!(
        fail(PreparationEvent::Written(Err(source.clone()))),
        DoRequestError::CouldNotWriteCode { source: source.clone() }
    );
    let manifest_error = ModifyCargoTomlError::CouldNotWrite { source };
    assert_eq!(
        fail(PreparationEvent::Modified(Err(manifest_error.clone()))),
        DoRequestError::CouldNotModifyCargoToml { source: manifest_error }
    );
    let source = SpawnCargoError::UnexpectedEndOfMessages;
    assert_eq!(
        Preparation::cargo_started::<()>(Err(source.clone())),
        Err(DoRequestError::CouldNotStartCargo { source })
    );
}

#[test]
fn successful_compilation_holds_the_output() {
    let request = request("");
    let ended = ExecuteCommandResponse { success: true, exit_detail: "exit 0".to_owned() };
    let action =
        Compilation::Running.advance(&request, CompilationEvent::CargoEnded(Ok(Ok(ended))));
    let (reading, read) = match action {
        CompilationAction::Read(reading, read) => (reading, read),
        other => panic!("{other:?}"),
    };
    assert_eq!(read.path, "compilation");
    let file = ReadFileResponse(vec![0, 97, 115, 109]);
    assert_eq!(
        reading.advance(&request, CompilationEvent::OutputRead(Ok(file))),
        CompilationAction::Finish(Ok(CompileResponse {
            success: true,
            exit_detail: "exit 0".to_owned(),
            code: vec![0, 97, 115, 109],
        }))
    );
}

#[test]
fn failed_compilation_holds_no_code() {
    let ended = ExecuteCommandResponse { success: false, exit_detail: "exit 101".to_owned() };
    assert_eq!(
        Compilation::Running.advance(&request(""), CompilationEvent::CargoEnded(Ok(Ok(ended)))),
        CompilationAction::Finish(Ok(CompileResponse {
            success: false,
            exit_detail: "exit 101".to_owned(),
            code: Vec::new(),
        }))
    );
}

#[test]
fn compilation_errors_are_told() {
    let request = request("");
    assert_eq!(
        Compilation::Running.advance(&request, CompilationEvent::CargoEnded(Err(outside("p")))),
        CompilationAction::Finish(Err(CompileError::CargoTaskPanicked { source: outside("p") }))
    );
    let source = SpawnCargoError::UnexpectedEndOfMessages;
    assert_eq!(
        Compilation::Running
            .advance(&request, CompilationEvent::CargoEnded(Ok(Err(source.clone())))),
        CompilationAction::Finish(Err(CompileError::CargoFailed { source }))
    );
    let source = CommanderError::UnexpectedResponseType;
    let reading = Compilation::Reading { exit_detail: String::new() };
    assert_eq!(
        reading.advance(&request, CompilationEvent::OutputRead(Err(source.clone()))),
        CompilationAction::Finish(Err(CompileError::CouldNotReadCode { source }))
    );
    let source = DoRequestError::CouldNotStartCargo {
        source: SpawnCargoError::UnexpectedEndOfMessages,
    };
    let error = CompileError::DoRequest { source: source.clone() };
    assert_eq!(error.message(), "Could not start Cargo task");
    assert_eq!(Compilation::begin::<()>(Err(source)), Err(error));
    assert_eq!(Compilation::begin(Ok(1)), Ok(1));
}

#[test]
fn output_is_gathered_in_order() {
    let absorb = |absorption: Absorption<u8>, event: OutputEvent<u8, String>| {
        absorption.absorb(event).err().unwrap()
    };
    let packet = |s: &str| Some(s.to_owned());
    let absorption = Absorption::new();
    assert!(absorption.task_open() && absorption.stdout_open() && absorption.stderr_open());
    let absorption = absorb(absorption, OutputEvent::Stdout(packet("a")));
    let absorption = absorb(absorption, OutputEvent::Stderr(packet("x")));
    let absorption = absorb(absorption, OutputEvent::Finished(Ok(7)));
    let absorption = absorb(absorption, OutputEvent::Stdout(packet("b")));
    let absorption = absorb(absorption, OutputEvent::Stderr(None));
    assert!(!absorption.task_open() && absorption.stdout_open() && !absorption.stderr_open());
    let all = absorption.absorb::<String>(OutputEvent::Stdout(None)).ok().unwrap().unwrap();
    let expected = WithOutput { response: 7, stdout: "ab".to_owned(), stderr: "x".to_owned() };
    assert_eq!(all, expected);
    assert_eq!(*all, 7);
}

#[test]
fn failure_ends_the_gathering() {
    let absorption: Absorption<u8> = Absorption::new();
    let end = absorption.absorb(OutputEvent::Finished(Err("e".to_owned())));
    assert_eq!(end.ok().unwrap(), Err("e".to_owned()));
}
