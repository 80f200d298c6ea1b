//! The `Cargo.toml` of the project in a container.
use crate::coordinator::error;
use crate::coordinator::error::{show_holding, CommanderError, OutsideError};
use crate::coordinator::message::{
    ReadFileRequest, ReadFileResponse, WriteFileRequest, WriteFileResponse,
};
use crate::coordinator::request::{CompileRequest, CARGO_TOML_KEY};
use vstd::prelude::*;
use vstd::string::StrSliceExecFns;

verus! {

/// A table of TOML.
#[verifier::external_type_specification]
#[verifier::external_body]
#[verifier::reject_recursive_types(K)]
#[verifier::reject_recursive_types(V)]
pub struct ExTomlMap<K, V>(toml::map::Map<K, V>);

/// A value of TOML.
#[verifier::external_type_specification]
#[verifier::external_body]
pub struct ExTomlValue(toml::Value);

/// What a value of TOML holds. A floating-point number is held as its bit
/// pattern, a date and time as its text.
pub ghost enum TomlTree {
    Text(Seq<char>),
    Integer(i64),
    Float(u64),
    Boolean(bool),
    Datetime(Seq<char>),
    Array(Seq<TomlTree>),
    Table(Map<Seq<char>, TomlTree>),
}

/// What a table holds.
pub uninterp spec fn table_contents(table: toml::Table) -> Map<Seq<char>, TomlTree>;

/// What a value holds.
pub uninterp spec fn value_contents(value: toml::Value) -> TomlTree;

/// The value that a text of TOML describes; `None` where it is not TOML.
pub uninterp spec fn toml_parsed(text: Seq<char>) -> Option<TomlTree>;

/// The text of TOML for a value; `None` where the value has none.
pub uninterp spec fn toml_printed(contents: TomlTree) -> Option<Seq<char>>;

/// What an empty table holds.
pub open spec fn no_entries() -> Map<Seq<char>, TomlTree> {
    Map::empty()
}

/// What is put into a table.
pub enum TomlItem {
    Table(toml::Table),
    Texts(Vec<String>),
    Flag(bool),
}

impl TomlItem {
    /// What the item holds.
    pub open spec fn tree(self) -> TomlTree {
        match self {
            TomlItem::Table(table) => TomlTree::Table(table_contents(table)),
            TomlItem::Texts(texts) => TomlTree::Array(
                texts@.map_values(|text: String| TomlTree::Text(text@)),
            ),
            TomlItem::Flag(flag) => TomlTree::Boolean(flag),
        }
    }
}

/// Calls `toml::from_str` for a value. Trusted: whether a text is TOML, and
/// which value it describes, depends on the text alone. An error is held by its
/// texts.
#[verifier::external_body]
fn parse_value(text: &str) -> (r: Result<toml::Value, OutsideError>)
    ensures
        match r {
            Ok(value) => toml_parsed(text@) == Some(value_contents(value)),
            Err(_) => toml_parsed(text@) is None,
        },
{
    toml::from_str(text).map_err(
        |error: toml::de::Error|
            OutsideError { text: error.to_string(), debug: format!("{:?}", error) },
    )
}

/// Calls `toml::to_string`. Trusted: whether a value has a text, and which one,
/// depends on what the value holds. An error is held by its texts.
#[verifier::external_body]
fn print_value(value: &toml::Value) -> (r: Result<String, OutsideError>)
    ensures
        match r {
            Ok(text) => toml_printed(value_contents(*value)) == Some(text@),
            Err(_) => toml_printed(value_contents(*value)) is None,
        },
{
    toml::to_string(value).map_err(
        |error| OutsideError { text: error.to_string(), debug: format!("{:?}", error) },
    )
}

/// Calls `clone` of `toml::Value`. Trusted: the copy holds the same.
#[verifier::external_body]
fn copy_value(value: &toml::Value) -> (r: toml::Value)
    ensures
        value_contents(r) == value_contents(*value),
{
    value.clone()
}

/// Takes the table out of `toml::Value::Table`. Trusted: a value that is a table
/// holds what the table holds; another value is handed back.
#[verifier::external_body]
fn into_table(value: toml::Value) -> (r: Result<toml::Table, toml::Value>)
    ensures
        match r {
            Ok(table) => value_contents(value) == TomlTree::Table(table_contents(table)),
            Err(other) => other == value && !(value_contents(value) is Table),
        },
{
    match value {
        toml::Value::Table(table) => Ok(table),
        other => Err(other),
    }
}

/// Makes a `toml::Value::Table`. Trusted: the value holds what the table holds.
#[verifier::external_body]
fn table_value(table: toml::Table) -> (r: toml::Value)
    ensures
        value_contents(r) == TomlTree::Table(table_contents(table)),
{
    toml::Value::Table(table)
}

/// Calls `toml::Table::new`. Trusted: the table is empty.
#[verifier::external_body]
fn new_table() -> (r: toml::Table)
    ensures
        table_contents(r) == no_entries(),
{
    toml::Table::new()
}

/// Calls `toml::Table::insert`. Trusted: the table then holds the item at the
/// key, in place of what stood there, and all else as before.
#[verifier::external_body]
fn put(table: &mut toml::Table, key: &str, item: TomlItem)
    ensures
        table_contents(*final(table)) == table_contents(*old(table)).insert(key@, item.tree()),
{
    let value = match item {
        TomlItem::Table(inner) => toml::Value::Table(inner),
        TomlItem::Texts(texts) => {
            toml::Value::Array(texts.into_iter().map(toml::Value::String).collect())
        },
        TomlItem::Flag(flag) => toml::Value::Boolean(flag),
    };
    table.insert(key.to_owned(), value);
}

/// Calls `toml::Table::remove`. Trusted: the table then holds nothing at the
/// key and all else as before; what stood there is returned if it was a table.
#[verifier::external_body]
fn take_table(table: &mut toml::Table, key: &str) -> (r: Option<toml::Table>)
    ensures
        table_contents(*final(table)) == table_contents(*old(table)).remove(key@),
        match r {
            Some(inner) => {
                &&& table_contents(*old(table)).dom().contains(key@)
                &&& table_contents(*old(table))[key@] == TomlTree::Table(table_contents(inner))
            },
            None => !(table_contents(*old(table)).dom().contains(key@) && table_contents(
                *old(table),
            )[key@] is Table),
        },
{
    match table.remove(key) {
        Some(toml::Value::Table(inner)) => Some(inner),
        Some(_) => None,
        None => None,
    }
}

/// Calls `String::from_utf8`. Trusted: valid UTF-8 is decoded, other bytes are
/// refused with an error, which is held by its texts.
#[verifier::external_body]
fn decode(bytes: Vec<u8>) -> (r: Result<String, OutsideError>)
    ensures
        match r {
            Ok(text) => vstd::utf8::valid_utf8(bytes@) && text@ == vstd::utf8::decode_utf8(bytes@),
            Err(_) => !vstd::utf8::valid_utf8(bytes@),
        },
{
    String::from_utf8(bytes).map_err(
        |error| OutsideError { text: error.to_string(), debug: format!("{:?}", error) },
    )
}

/// The table at `key`; an empty one where there is no table at it.
pub open spec fn subtable(contents: Map<Seq<char>, TomlTree>, key: Seq<char>) -> Map<
    Seq<char>,
    TomlTree,
> {
    if contents.dom().contains(key) && contents[key] is Table {
        contents[key]->Table_0
    } else {
        no_entries()
    }
}

/// `contents` with `crate_type` as the only crate type of the library.
pub open spec fn with_crate_type(
    contents: Map<Seq<char>, TomlTree>,
    crate_type: Seq<char>,
) -> Map<Seq<char>, TomlTree> {
    contents.insert(
        "lib"@,
        TomlTree::Table(
            subtable(contents, "lib"@).insert(
                "crate-type"@,
                TomlTree::Array(seq![TomlTree::Text(crate_type)]),
            ),
        ),
    )
}

/// `contents` with link-time optimisation of the release profile set to `lto`.
pub open spec fn with_release_lto(contents: Map<Seq<char>, TomlTree>, lto: bool) -> Map<
    Seq<char>,
    TomlTree,
> {
    let profile = subtable(contents, "profile"@);
    contents.insert(
        "profile"@,
        TomlTree::Table(
            profile.insert(
                "release"@,
                TomlTree::Table(
                    subtable(profile, "release"@).insert("lto"@, TomlTree::Boolean(lto)),
                ),
            ),
        ),
    )
}

/// `manifest` with `crate_type` as the only crate type of the library.
pub open spec fn tree_with_crate_type(manifest: TomlTree, crate_type: Seq<char>) -> TomlTree {
    match manifest {
        TomlTree::Table(contents) => TomlTree::Table(with_crate_type(contents, crate_type)),
        other => other,
    }
}

/// `manifest` with link-time optimisation of the release profile set to `lto`.
pub open spec fn tree_with_release_lto(manifest: TomlTree, lto: bool) -> TomlTree {
    match manifest {
        TomlTree::Table(contents) => TomlTree::Table(with_release_lto(contents, lto)),
        other => other,
    }
}

/// Sets the crate type of the library. It is assumed that the library is to have
/// this crate type alone, so that a list of others is replaced and not added to,
/// and that a value that is no table is to stay as it is.
pub fn set_crate_type(cargo_toml: toml::Value, crate_type: &str) -> (r: toml::Value)
    ensures
        value_contents(r) == tree_with_crate_type(value_contents(cargo_toml), crate_type@),
{
    let mut cargo_toml: toml::Table = match into_table(cargo_toml) {
        Ok(table) => table,
        Err(other) => {
            return other;
        },
    };
    let ghost was = table_contents(cargo_toml);
    let mut lib: toml::Table = match take_table(&mut cargo_toml, "lib") {
        Some(lib) => lib,
        None => new_table(),
    };
    let mut types: Vec<String> = Vec::new();
    types.push(crate_type.to_owned());
    let ghost texts = types@;
    put(&mut lib, "crate-type", TomlItem::Texts(types));
    put(&mut cargo_toml, "lib", TomlItem::Table(lib));
    proof {
        assert(texts.map_values(|text: String| TomlTree::Text(text@))
            =~= seq![TomlTree::Text(crate_type@)]);
        assert(table_contents(cargo_toml) =~= with_crate_type(was, crate_type@));
    }
    table_value(cargo_toml)
}

/// Sets link-time optimisation of the release profile. It is assumed that it is to
/// stand in that profile alone, and that a value that is no table is to stay as it
/// is.
pub fn set_release_lto(cargo_toml: toml::Value, lto: bool) -> (r: toml::Value)
    ensures
        value_contents(r) == tree_with_release_lto(value_contents(cargo_toml), lto),
{
    let mut cargo_toml: toml::Table = match into_table(cargo_toml) {
        Ok(table) => table,
        Err(other) => {
            return other;
        },
    };
    let ghost was = table_contents(cargo_toml);
    let mut profile: toml::Table = match take_table(&mut cargo_toml, "profile") {
        Some(profile) => profile,
        None => new_table(),
    };
    let ghost profile_was = table_contents(profile);
    let mut release: toml::Table = match take_table(&mut profile, "release") {
        Some(release) => release,
        None => new_table(),
    };
    put(&mut release, "lto", TomlItem::Flag(lto));
    put(&mut profile, "release", TomlItem::Table(release));
    proof {
        assert(profile_was == subtable(was, "profile"@));
        assert(table_contents(profile) =~= profile_was.insert(
            "release"@,
            TomlTree::Table(subtable(profile_was, "release"@).insert("lto"@, TomlTree::Boolean(lto))),
        ));
    }
    put(&mut cargo_toml, "profile", TomlItem::Table(profile));
    assert(table_contents(cargo_toml) =~= with_release_lto(was, lto));
    table_value(cargo_toml)
}

/// Why `Cargo.toml` could not be changed.
#[derive(Debug, Clone, PartialEq, Eq)]
#[allow(inconsistent_fields)]
pub enum ModifyCargoTomlError {
    CouldNotRead { source: CommanderError },
    InvalidUtf8 { source: OutsideError },
    CouldNotDeserialize { source: OutsideError },
    CouldNotSerialize { source: OutsideError },
    CouldNotWrite { source: CommanderError },
}

impl ModifyCargoTomlError {
    /// The text of the error.
    pub open spec fn text(self) -> Seq<char> {
        match self {
            ModifyCargoTomlError::CouldNotRead { .. } => "Could not read the file"@,
            ModifyCargoTomlError::InvalidUtf8 { .. } => "Could not parse the file as UTF-8"@,
            ModifyCargoTomlError::CouldNotDeserialize {
                ..
            } => "Could not deserialize the file as TOML"@,
            ModifyCargoTomlError::CouldNotSerialize {
                ..
            } => "Could not serialize the file as TOML"@,
            ModifyCargoTomlError::CouldNotWrite { .. } => "Could not write the file"@,
        }
    }

    /// The text of the error.
    pub fn message(&self) -> (r: String)
        ensures
            r@ == self.text(),
    {
        match self {
            ModifyCargoTomlError::CouldNotRead { .. } => "Could not read the file".to_owned(),
            ModifyCargoTomlError::InvalidUtf8 {
                ..
            } => "Could not parse the file as UTF-8".to_owned(),
            ModifyCargoTomlError::CouldNotDeserialize {
                ..
            } => "Could not deserialize the file as TOML".to_owned(),
            ModifyCargoTomlError::CouldNotSerialize {
                ..
            } => "Could not serialize the file as TOML".to_owned(),
            ModifyCargoTomlError::CouldNotWrite { .. } => "Could not write the file".to_owned(),
        }
    }

    /// How the error is shown for debugging.
    pub open spec fn shown(self) -> Seq<char> {
        match self {
            ModifyCargoTomlError::CouldNotRead { source } => error::holding(
                "CouldNotRead"@,
                source.shown(),
            ),
            ModifyCargoTomlError::InvalidUtf8 { source } => error::holding(
                "InvalidUtf8"@,
                source.debug@,
            ),
            ModifyCargoTomlError::CouldNotDeserialize { source } => error::holding(
                "CouldNotDeserialize"@,
                source.debug@,
            ),
            ModifyCargoTomlError::CouldNotSerialize { source } => error::holding(
                "CouldNotSerialize"@,
                source.debug@,
            ),
            ModifyCargoTomlError::CouldNotWrite { source } => error::holding(
                "CouldNotWrite"@,
                source.shown(),
            ),
        }
    }

    /// How the error is shown for debugging.
    pub fn show(&self) -> (r: String)
        ensures
            r@ == self.shown(),
    {
        match self {
            ModifyCargoTomlError::CouldNotRead { source } => {
                show_holding("CouldNotRead", source.show().as_str())
            },
            ModifyCargoTomlError::InvalidUtf8 { source } => {
                show_holding("InvalidUtf8", source.debug.as_str())
            },
            ModifyCargoTomlError::CouldNotDeserialize { source } => {
                show_holding("CouldNotDeserialize", source.debug.as_str())
            },
            ModifyCargoTomlError::CouldNotSerialize { source } => {
                show_holding("CouldNotSerialize", source.debug.as_str())
            },
            ModifyCargoTomlError::CouldNotWrite { source } => {
                show_holding("CouldNotWrite", source.show().as_str())
            },
        }
    }
}

/// The manifest of the project in a container, as it was when the container
/// started, from which the manifest for each request is made.
pub struct ModifyCargoToml {
    cargo_toml: toml::Value,
}

impl View for ModifyCargoToml {
    type V = TomlTree;

    closed spec fn view(&self) -> TomlTree {
        value_contents(self.cargo_toml)
    }
}

impl ModifyCargoToml {
    /// Where the manifest stands.
    pub const PATH: &'static str = "Cargo.toml";

    /// Asks the worker for the manifest.
    pub fn read_request() -> (request: ReadFileRequest)
        ensures
            request.path@ == Self::PATH@,
    {
        ReadFileRequest { path: Self::PATH.to_owned() }
    }

    /// Takes the answer of the worker to [`ModifyCargoToml::read_request`].
    pub fn read(reply: Result<ReadFileResponse, CommanderError>) -> (r: Result<
        ModifyCargoToml,
        ModifyCargoTomlError,
    >)
        ensures
            read_from(reply, r),
            r matches Ok(manifest) ==> (reply matches Ok(file) && vstd::utf8::valid_utf8(file.0@)
                && toml_parsed(vstd::utf8::decode_utf8(file.0@)) == Some(manifest@)),
    {
        match reply {
            Err(source) => Err(ModifyCargoTomlError::CouldNotRead { source }),
            Ok(file) => match decode(file.0) {
                Err(source) => Err(ModifyCargoTomlError::InvalidUtf8 { source }),
                Ok(text) => match parse_value(text.as_str()) {
                    Err(source) => Err(ModifyCargoTomlError::CouldNotDeserialize { source }),
                    Ok(cargo_toml) => Ok(ModifyCargoToml { cargo_toml }),
                },
            },
        }
    }

    /// Asks the worker to write the manifest for `request`.
    pub fn modify_for(&self, request: &CompileRequest) -> (r: Result<
        WriteFileRequest,
        ModifyCargoTomlError,
    >)
        ensures
            match toml_printed(manifest_for_compilation(self@)) {
                Some(text) => {
                    &&& r matches Ok(write)
                    &&& write.path@ == Self::PATH@
                    &&& write.content@ == vstd::utf8::encode_utf8(text)
                },
                None => r matches Err(ModifyCargoTomlError::CouldNotSerialize { .. }),
            },
    {
        let cargo_toml: toml::Value = copy_value(&self.cargo_toml);
        let cargo_toml: toml::Value = request.modify_cargo_toml(cargo_toml);
        match print_value(&cargo_toml) {
            Err(source) => Err(ModifyCargoTomlError::CouldNotSerialize { source }),
            Ok(text) => Ok(
                WriteFileRequest {
                    path: Self::PATH.to_owned(),
                    content: text.as_str().as_bytes_vec(),
                },
            ),
        }
    }

    /// Takes the answer of the worker to the request of
    /// [`ModifyCargoToml::modify_for`].
    pub fn written(reply: Result<WriteFileResponse, CommanderError>) -> (r: Result<
        (),
        ModifyCargoTomlError,
    >)
        ensures
            r == match reply {
                Ok(_) => Ok::<(), ModifyCargoTomlError>(()),
                Err(source) => Err(ModifyCargoTomlError::CouldNotWrite { source }),
            },
    {
        match reply {
            Ok(_) => Ok(()),
            Err(source) => Err(ModifyCargoTomlError::CouldNotWrite { source }),
        }
    }
}

/// `read` is what `reply`, the worker's answer to a request for the manifest,
/// holds.
pub open spec fn read_from(
    reply: Result<ReadFileResponse, CommanderError>,
    read: Result<ModifyCargoToml, ModifyCargoTomlError>,
) -> bool {
    match reply {
        Err(source) => read == Err::<ModifyCargoToml, _>(
            ModifyCargoTomlError::CouldNotRead { source },
        ),
        Ok(file) => {
            let parsed = toml_parsed(vstd::utf8::decode_utf8(file.0@));
            if !vstd::utf8::valid_utf8(file.0@) {
                read matches Err(ModifyCargoTomlError::InvalidUtf8 { .. })
            } else if parsed is None {
                read matches Err(ModifyCargoTomlError::CouldNotDeserialize { .. })
            } else {
                read matches Ok(manifest) && Some(manifest@) == parsed
            }
        },
    }
}

/// The manifest with which code is compiled.
pub open spec fn manifest_for_compilation(manifest: TomlTree) -> TomlTree {
    tree_with_release_lto(tree_with_crate_type(manifest, CARGO_TOML_KEY@), true)
}

/// The two tables that the manifest for a compilation changes have different
/// names.
proof fn lemma_names()
    ensures
        "lib"@ != "profile"@,
{
    reveal_strlit("lib");
    reveal_strlit("profile");
    assert("lib"@.len() != "profile"@.len());
}

/// The manifest for a compilation sets the crate type and link-time
/// optimisation and keeps every other entry of every table.
pub proof fn manifest_keeps_other_entries(contents: Map<Seq<char>, TomlTree>)
    ensures
        ({
            let made = manifest_for_compilation(TomlTree::Table(contents));
            let now = made->Table_0;
            let profile = subtable(contents, "profile"@);
            let new_profile = subtable(now, "profile"@);
            &&& made is Table
            &&& subtable(now, "lib"@)["crate-type"@] == TomlTree::Array(
                seq![TomlTree::Text(CARGO_TOML_KEY@)],
            )
            &&& subtable(new_profile, "release"@)["lto"@] == TomlTree::Boolean(true)
            &&& now.remove("lib"@).remove("profile"@) == contents.remove("lib"@).remove("profile"@)
            &&& subtable(now, "lib"@).remove("crate-type"@) == subtable(contents, "lib"@).remove(
                "crate-type"@,
            )
            &&& new_profile.remove("release"@) == profile.remove("release"@)
            &&& subtable(new_profile, "release"@).remove("lto"@) == subtable(
                profile,
                "release"@,
            ).remove("lto"@)
        }),
{
    lemma_names();
    let now = manifest_for_compilation(TomlTree::Table(contents))->Table_0;
    let with_lib = with_crate_type(contents, CARGO_TOML_KEY@);
    let profile = subtable(contents, "profile"@);
    let new_profile = subtable(now, "profile"@);
    assert(subtable(with_lib, "profile"@) == profile);
    assert(subtable(now, "lib"@) == subtable(with_lib, "lib"@));
    assert(now.remove("lib"@).remove("profile"@) =~= contents.remove("lib"@).remove("profile"@));
    assert(subtable(now, "lib"@).remove("crate-type"@) =~= subtable(contents, "lib"@).remove(
        "crate-type"@,
    ));
    assert(new_profile.remove("release"@) =~= profile.remove("release"@));
    assert(subtable(new_profile, "release"@).remove("lto"@) =~= subtable(
        profile,
        "release"@,
    ).remove("lto"@));
}

/// Making the manifest for a compilation twice is the same as making it once.
pub proof fn manifest_is_idempotent(manifest: TomlTree)
    ensures
        manifest_for_compilation(manifest_for_compilation(manifest)) == manifest_for_compilation(
            manifest,
        ),
{
    if manifest is Table {
        lemma_names();
        let once = manifest_for_compilation(manifest)->Table_0;
        let twice = manifest_for_compilation(TomlTree::Table(once))->Table_0;
        let lib = subtable(once, "lib"@);
        let profile = subtable(once, "profile"@);
        let release = subtable(profile, "release"@);
        let crate_types = TomlTree::Array(seq![TomlTree::Text(CARGO_TOML_KEY@)]);
        assert(lib.insert("crate-type"@, crate_types) =~= lib);
        assert(release.insert("lto"@, TomlTree::Boolean(true)) =~= release);
        assert(profile.insert("release"@, TomlTree::Table(release)) =~= profile);
        assert(subtable(with_crate_type(once, CARGO_TOML_KEY@), "profile"@) == profile);
        assert(twice =~= once);
    }
}

/// The worker's file is kept as it is: where it is UTF-8 and TOML, the manifest holds
/// exactly what the text of the file describes. Else the error says which of the three
/// steps failed, and a failure to read is passed on.
pub proof fn file_of_the_worker_is_kept(
    reply: Result<ReadFileResponse, CommanderError>,
    read: Result<ModifyCargoToml, ModifyCargoTomlError>,
)
    requires
        read_from(reply, read),
    ensures
        reply matches Err(source) ==> (read matches Err(
            ModifyCargoTomlError::CouldNotRead { source: told },
        ) && told == source),
        reply matches Ok(file) ==> {
            let parsed = toml_parsed(vstd::utf8::decode_utf8(file.0@));
            &&& read is Ok <==> vstd::utf8::valid_utf8(file.0@) && parsed is Some
            &&& read matches Ok(manifest) ==> parsed == Some(manifest@)
            &&& !vstd::utf8::valid_utf8(file.0@) ==> (read matches Err(
                ModifyCargoTomlError::InvalidUtf8 { .. },
            ))
            &&& vstd::utf8::valid_utf8(file.0@) && parsed is None ==> (read matches Err(
                ModifyCargoTomlError::CouldNotDeserialize { .. },
            ))
        },
{
}

/// What stands at `path` in `tree`, each step of which is the name of an entry in a
/// table; `None` where nothing does.
pub open spec fn entry(tree: TomlTree, path: Seq<Seq<char>>) -> Option<TomlTree>
    decreases path.len(),
{
    if path.len() == 0 {
        Some(tree)
    } else {
        match tree {
            TomlTree::Table(entries) => if entries.dom().contains(path[0]) {
                entry(entries[path[0]], path.drop_first())
            } else {
                None
            },
            _ => None,
        }
    }
}

/// Whether one of the two paths begins with the other.
pub open spec fn touches(path: Seq<Seq<char>>, other: Seq<Seq<char>>) -> bool {
    forall|i: int|
        0 <= i < path.len() && i < other.len() ==> #[trigger] path[i] == #[trigger] other[i]
}

/// The manifest for a compilation has the crate type and link-time optimisation that a
/// compilation needs, whatever stood there before.
pub proof fn manifest_changes_two_entries(manifest: TomlTree)
    requires
        manifest is Table,
    ensures
        ({
            let made = manifest_for_compilation(manifest);
            &&& entry(made, seq!["lib"@, "crate-type"@]) == Some(
                TomlTree::Array(seq![TomlTree::Text("cdylib"@)]),
            )
            &&& entry(made, seq!["profile"@, "release"@, "lto"@]) == Some(TomlTree::Boolean(true))
        }),
{
    lemma_names();
    reveal_with_fuel(entry, 4);
    let lib = seq!["lib"@, "crate-type"@];
    let lto = seq!["profile"@, "release"@, "lto"@];
    assert(lib.drop_first() =~= seq!["crate-type"@]);
    assert(lib.drop_first().drop_first() =~= Seq::<Seq<char>>::empty());
    assert(lto.drop_first() =~= seq!["release"@, "lto"@]);
    assert(lto.drop_first().drop_first() =~= seq!["lto"@]);
    assert(lto.drop_first().drop_first().drop_first() =~= Seq::<Seq<char>>::empty());
}

/// What stands at any other path is what stood there before; where nothing stood there,
/// nothing does. A manifest that is no table stays as it is.
pub proof fn manifest_keeps_entries_at_any_depth(manifest: TomlTree, path: Seq<Seq<char>>)
    requires
        !touches(path, seq!["lib"@, "crate-type"@]),
        !touches(path, seq!["profile"@, "release"@, "lto"@]),
    ensures
        entry(manifest_for_compilation(manifest), path) == entry(manifest, path),
        manifest !is Table ==> manifest_for_compilation(manifest) == manifest,
{
    lemma_names();
    reveal_with_fuel(entry, 4);
    let lib = seq!["lib"@, "crate-type"@];
    let lto = seq!["profile"@, "release"@, "lto"@];
    let i = choose|i: int|
        0 <= i < path.len() && i < lib.len() && #[trigger] path[i] != #[trigger] lib[i];
    let j = choose|j: int|
        0 <= j < path.len() && j < lto.len() && #[trigger] path[j] != #[trigger] lto[j];
    if manifest is Table {
        let one = path.drop_first();
        let two = one.drop_first();
        if path[0] == "lib"@ {
            assert(i == 1);
            assert(one[0] == path[1]);
        } else if path[0] == "profile"@ {
            assert(j == 1 || j == 2);
            assert(one[0] == path[1]);
            if one[0] == "release"@ {
                assert(j == 2);
                assert(two[0] == path[2]);
            }
        }
    }
}

/// A manifest that could not be had has a fixed text for each kind, whatever its cause, and
/// is shown for debugging as its kind with the whole of its cause inside.
pub proof fn manifest_errors_are_told(error: ModifyCargoTomlError)
    ensures
        match error {
            ModifyCargoTomlError::CouldNotRead { .. } => error.text() == "Could not read the file"@,
            ModifyCargoTomlError::InvalidUtf8 { .. } => {
                error.text() == "Could not parse the file as UTF-8"@
            },
            ModifyCargoTomlError::CouldNotDeserialize { .. } => {
                error.text() == "Could not deserialize the file as TOML"@
            },
            ModifyCargoTomlError::CouldNotSerialize { .. } => {
                error.text() == "Could not serialize the file as TOML"@
            },
            ModifyCargoTomlError::CouldNotWrite { .. } => {
                error.text() == "Could not write the file"@
            },
        },
        match error {
            ModifyCargoTomlError::CouldNotRead { source } => {
                error.shown() == "CouldNotRead"@ + " { source: "@ + source.shown() + " }"@
            },
            ModifyCargoTomlError::InvalidUtf8 { source } => {
                error.shown() == "InvalidUtf8"@ + " { source: "@ + source.debug@ + " }"@
            },
            ModifyCargoTomlError::CouldNotDeserialize { source } => {
                error.shown() == "CouldNotDeserialize"@ + " { source: "@ + source.debug@ + " }"@
            },
            ModifyCargoTomlError::CouldNotSerialize { source } => {
                error.shown() == "CouldNotSerialize"@ + " { source: "@ + source.debug@ + " }"@
            },
            ModifyCargoTomlError::CouldNotWrite { source } => {
                error.shown() == "CouldNotWrite"@ + " { source: "@ + source.shown() + " }"@
            },
        },
{
}

/// Setting the crate type makes it the only one, whatever stood there before, and changes
/// what stands at no other path.
pub proof fn setting_the_crate_type_changes_nothing_else(
    manifest: TomlTree,
    crate_type: Seq<char>,
    path: Seq<Seq<char>>,
)
    requires
        manifest is Table,
    ensures
        entry(tree_with_crate_type(manifest, crate_type), seq!["lib"@, "crate-type"@]) == Some(
            TomlTree::Array(seq![TomlTree::Text(crate_type)]),
        ),
        !touches(path, seq!["lib"@, "crate-type"@]) ==> entry(
            tree_with_crate_type(manifest, crate_type),
            path,
        ) == entry(manifest, path),
{
    reveal_with_fuel(entry, 3);
    let lib = seq!["lib"@, "crate-type"@];
    assert(lib.drop_first() =~= seq!["crate-type"@]);
    assert(lib.drop_first().drop_first() =~= Seq::<Seq<char>>::empty());
    if !touches(path, lib) {
        let i = choose|i: int|
            0 <= i < path.len() && i < lib.len() && #[trigger] path[i] != #[trigger] lib[i];
        if path[0] == "lib"@ {
            assert(i == 1);
            assert(path.drop_first()[0] == path[1]);
        }
    }
}

/// Setting link-time optimisation of the release profile makes it what is asked for,
/// whatever stood there before, and changes what stands at no other path.
pub proof fn setting_release_lto_changes_nothing_else(
    manifest: TomlTree,
    lto: bool,
    path: Seq<Seq<char>>,
)
    requires
        manifest is Table,
    ensures
        entry(tree_with_release_lto(manifest, lto), seq!["profile"@, "release"@, "lto"@]) == Some(
            TomlTree::Boolean(lto),
        ),
        !touches(path, seq!["profile"@, "release"@, "lto"@]) ==> entry(
            tree_with_release_lto(manifest, lto),
            path,
        ) == entry(manifest, path),
{
    reveal_with_fuel(entry, 4);
    let to = seq!["profile"@, "release"@, "lto"@];
    assert(to.drop_first() =~= seq!["release"@, "lto"@]);
    assert(to.drop_first().drop_first() =~= seq!["lto"@]);
    assert(to.drop_first().drop_first().drop_first() =~= Seq::<Seq<char>>::empty());
    if !touches(path, to) {
        let i = choose|i: int|
            0 <= i < path.len() && i < to.len() && #[trigger] path[i] != #[trigger] to[i];
        let one = path.drop_first();
        if path[0] == "profile"@ {
            assert(one[0] == path[1]);
            if one[0] == "release"@ {
                assert(i == 2);
                assert(one.drop_first()[0] == path[2]);
            }
        }
    }
}

/// A value that is no table stays as it is, whatever is to be set in it.
pub proof fn what_is_no_table_stays(manifest: TomlTree, crate_type: Seq<char>, lto: bool)
    requires
        manifest !is Table,
    ensures
        tree_with_crate_type(manifest, crate_type) == manifest,
        tree_with_release_lto(manifest, lto) == manifest,
{
}

/// Setting the crate type or link-time optimisation in a manifest sets the one entry that it
/// names and leaves what stands at every other path.
pub proof fn settings_change_one_entry(
    manifest: toml::Value,
    crate_type: &str,
    typed: toml::Value,
    lto: bool,
    optimised: toml::Value,
    path: Seq<Seq<char>>,
)
    requires
        call_ensures(set_crate_type, (manifest, crate_type), typed),
        call_ensures(set_release_lto, (manifest, lto), optimised),
    ensures
        ({
            let was = value_contents(manifest);
            let of_lib = seq!["lib"@, "crate-type"@];
            let of_profile = seq!["profile"@, "release"@, "lto"@];
            &&& was is Table ==> {
                &&& entry(value_contents(typed), of_lib) == Some(
                    TomlTree::Array(seq![TomlTree::Text(crate_type@)]),
                )
                &&& entry(value_contents(optimised), of_profile) == Some(TomlTree::Boolean(lto))
                &&& !touches(path, of_lib) ==> entry(value_contents(typed), path) == entry(
                    was,
                    path,
                )
                &&& !touches(path, of_profile) ==> entry(value_contents(optimised), path) == entry(
                    was,
                    path,
                )
            }
            &&& was !is Table ==> value_contents(typed) == was && value_contents(optimised) == was
        }),
{
    let was = value_contents(manifest);
    if was is Table {
        setting_the_crate_type_changes_nothing_else(was, crate_type@, path);
        setting_release_lto_changes_nothing_else(was, lto, path);
    }
}

/// The manifest was written where the worker says so; else the cause is told.
pub proof fn writing_the_manifest_is_told(
    reply: Result<WriteFileResponse, CommanderError>,
    r: Result<(), ModifyCargoTomlError>,
)
    requires
        call_ensures(ModifyCargoToml::written, (reply,), r),
    ensures
        reply is Ok ==> r is Ok,
        reply matches Err(source) ==> r == Err::<(), _>(
            ModifyCargoTomlError::CouldNotWrite { source },
        ),
{
}

} // verus!
