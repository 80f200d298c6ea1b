//! The crates that code can use.
use crate::coordinator::error::{CommanderError, ContainerCratesError, OutsideError};
use crate::coordinator::message::{ReadFileRequest, ReadFileResponse};
use vstd::prelude::*;

verus! {

/// A crate that code can use.
#[derive(Debug, Clone, PartialEq, Eq)]
pub struct Crate {
    pub name: String,
    pub version: String,
    pub id: String,
}

/// A crate in the crate information file.
#[derive(Debug, Clone, PartialEq, Eq)]
pub struct InternalCrate {
    pub name: String,
    pub version: String,
    pub id: String,
}

/// The crate that `internal` tells of.
pub open spec fn crate_of(internal: InternalCrate) -> Crate {
    Crate { name: internal.name, version: internal.version, id: internal.id }
}

impl From<InternalCrate> for Crate {
    fn from(other: InternalCrate) -> (r: Crate) {
        let InternalCrate { name, version, id } = other;
        Crate { name, version, id }
    }
}

impl vstd::std_specs::convert::FromSpecImpl<InternalCrate> for Crate {
    open spec fn obeys_from_spec() -> bool {
        true
    }

    open spec fn from_spec(other: InternalCrate) -> Crate {
        crate_of(other)
    }
}

/// Asks the worker for the crate information file.
pub fn crates_request() -> (request: ReadFileRequest)
    ensures
        request.path@ == "crate-information.json"@,
{
    ReadFileRequest { path: "crate-information.json".to_owned() }
}

/// The content of the crate information file, which the worker was asked for.
pub fn crates_read(reply: Result<ReadFileResponse, CommanderError>) -> (r: Result<
    Vec<u8>,
    ContainerCratesError,
>)
    ensures
        r == match reply {
            Ok(file) => Ok::<Vec<u8>, ContainerCratesError>(file.0),
            Err(source) => Err(ContainerCratesError::Read { source }),
        },
{
    match reply {
        Ok(file) => Ok(file.0),
        Err(source) => Err(ContainerCratesError::Read { source }),
    }
}

/// The crates in the crate information file, in its order; an error where the
/// file does not tell them.
pub fn crates_listed(parsed: Result<Vec<InternalCrate>, OutsideError>) -> (r: Result<
    Vec<Crate>,
    ContainerCratesError,
>)
    ensures
        match parsed {
            Ok(internal) => r matches Ok(crates) && crates@ == internal@.map_values(
                |internal: InternalCrate| crate_of(internal),
            ),
            Err(source) => r == Err::<Vec<Crate>, _>(
                ContainerCratesError::Deserialization { source },
            ),
        },
{
    match parsed {
        Err(source) => Err(ContainerCratesError::Deserialization { source }),
        Ok(internal) => {
            let mut crates: Vec<Crate> = Vec::new();
            let ghost all = internal@;
            for one in it: internal
                invariant
                    it.seq() == all,
                    crates@ == all.take(it.index()).map_values(
                        |internal: InternalCrate| crate_of(internal),
                    ),
            {
                let ghost before = all.take(it.index());
                crates.push(Crate::from(one));
                assert(all.take(it.index() + 1) =~= before.push(one));
            }
            assert(all.take(all.len() as int) =~= all);
            Ok(crates)
        },
    }
}

/// A crate keeps its name, its version and its identifier, each of them whole.
pub proof fn crates_keep_what_is_told_of_them(internal: InternalCrate)
    ensures
        crate_of(internal).name@ == internal.name@,
        crate_of(internal).version@ == internal.version@,
        crate_of(internal).id@ == internal.id@,
{
}

/// The crates that are listed are those of the crate information file, each in its place
/// and with its own name, version and identifier; the content of that file is passed on
/// byte for byte, and an error is passed on with its cause.
pub proof fn crates_are_listed_as_told(
    reply: Result<ReadFileResponse, CommanderError>,
    read: Result<Vec<u8>, ContainerCratesError>,
    parsed: Result<Vec<InternalCrate>, OutsideError>,
    listed: Result<Vec<Crate>, ContainerCratesError>,
)
    requires
        call_ensures(crates_read, (reply,), read),
        call_ensures(crates_listed, (parsed,), listed),
    ensures
        match reply {
            Ok(file) => read matches Ok(content) && content@ == file.0@,
            Err(source) => read == Err::<Vec<u8>, _>(ContainerCratesError::Read { source }),
        },
        match parsed {
            Ok(internal) => {
                &&& listed matches Ok(crates)
                &&& crates@.len() == internal@.len()
                &&& forall|i: int|
                    0 <= i < crates@.len() ==> {
                        &&& (#[trigger] crates@[i]).name@ == internal@[i].name@
                        &&& crates@[i].version@ == internal@[i].version@
                        &&& crates@[i].id@ == internal@[i].id@
                    }
            },
            Err(source) => listed == Err::<Vec<Crate>, _>(
                ContainerCratesError::Deserialization { source },
            ),
        },
{
}

} // verus!
