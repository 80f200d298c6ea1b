//! The commands that start and end containers.
use crate::coordinator::tracking::{TerminateContainer, TrackedContainers};
use crate::text;
use crate::text::to_strings;
use vstd::prelude::*;
use vstd::string::StringExecFns;

verus! {

/// A program and its arguments.
#[derive(Debug, Clone, PartialEq, Eq)]
pub struct CommandLine {
    pub program: String,
    pub args: Vec<String>,
}

/// A kind of processor.
#[derive(Debug, Clone, Copy, PartialEq, Eq)]
pub enum TargetArch {
    X86_64,
    Aarch64,
}

/// The platform of containers for `arch`.
pub open spec fn platform(arch: TargetArch) -> Seq<char> {
    match arch {
        TargetArch::X86_64 => "linux/amd64"@,
        TargetArch::Aarch64 => "linux/arm64"@,
    }
}

/// The platform of containers for `arch`.
pub fn docker_arch(arch: TargetArch) -> (r: &'static str)
    ensures
        r@ == platform(arch),
{
    match arch {
        TargetArch::X86_64 => "linux/amd64",
        TargetArch::Aarch64 => "linux/arm64",
    }
}

/// The arguments that run a container without rights, without a network, and
/// with bounds on memory and on the number of processes.
pub open spec fn secure_args(arch: TargetArch) -> Seq<Seq<char>> {
    seq![
        "run"@,
        "--platform"@,
        platform(arch),
        "--cap-drop=ALL"@,
        "--net"@,
        "none"@,
        "--memory"@,
        "1g"@,
        "--memory-swap"@,
        "2g"@,
        "--pids-limit"@,
        "512"@,
        "--oom-score-adj"@,
        "1000"@,
    ]
}

/// The arguments that name a container and run a worker in it.
pub open spec fn worker_args(name: Seq<char>) -> Seq<Seq<char>> {
    seq![
        "--name"@,
        name,
        "-i"@,
        "-a"@,
        "stdin"@,
        "-a"@,
        "stdout"@,
        "-a"@,
        "stderr"@,
        "--rm"@,
        "rust-stable"@,
        "worker"@,
        "/wasmbuild"@,
    ]
}

/// The arguments that kill a container.
pub open spec fn kill_args(name: Seq<char>) -> Seq<Seq<char>> {
    seq!["kill"@, "--signal"@, "KILL"@, name]
}

/// The name of the container with the number or name `id`.
pub open spec fn container_name(id: Seq<char>) -> Seq<char> {
    "wasmbuild-"@ + id
}

/// The command that runs a container with few rights; what runs in it is still
/// to be added.
pub fn basic_secure_docker_command(arch: TargetArch) -> (command: CommandLine)
    ensures
        command.program@ == "podman"@,
        text::texts(command.args@) == secure_args(arch),
{
    let args: Vec<&str> = vec![
        "run",
        "--platform",
        docker_arch(arch),
        "--cap-drop=ALL",
        "--net",
        "none",
        "--memory",
        "1g",
        "--memory-swap",
        "2g",
        "--pids-limit",
        "512",
        "--oom-score-adj",
        "1000",
    ];
    assert(text::str_texts(args@) =~= secure_args(arch));
    CommandLine { program: "podman".to_owned(), args: to_strings(&args) }
}

/// Runs workers in containers.
pub struct DockerBackend;

impl Default for DockerBackend {
    fn default() -> (backend: DockerBackend)
        ensures
            backend == DockerBackend,
    {
        DockerBackend
    }
}

impl DockerBackend {
    /// The command that starts a worker in a container of its own, and what ends
    /// that container, which is listed from now on; and whether it was not listed
    /// before.
    pub fn prepare_worker_command(
        &self,
        id: &str,
        arch: TargetArch,
        containers: &mut TrackedContainers,
    ) -> (r: (CommandLine, TerminateContainer, bool))
        requires
            old(containers).wf(),
        ensures
            final(containers).wf(),
            final(containers)@ == old(containers)@.insert(container_name(id@)),
            r.2 == !old(containers)@.contains(container_name(id@)),
            r.0.program@ == "podman"@,
            text::texts(r.0.args@) == secure_args(arch) + worker_args(container_name(id@)),
            r.1@ matches Some(pending) && {
                &&& pending.name == container_name(id@)
                &&& pending.program == "docker"@
                &&& pending.args == kill_args(container_name(id@))
            },
    {
        let name: String = "wasmbuild-".to_owned().concat(id);
        let mut command: CommandLine = basic_secure_docker_command(arch);
        let ghost basic = command.args@;
        let more: Vec<&str> = vec![
            "--name",
            name.as_str(),
            "-i",
            "-a",
            "stdin",
            "-a",
            "stdout",
            "-a",
            "stderr",
            "--rm",
            "rust-stable",
            "worker",
            "/wasmbuild",
        ];
        assert(text::str_texts(more@) =~= worker_args(name@));
        let mut more: Vec<String> = to_strings(&more);
        let ghost added = more@;
        command.args.append(&mut more);
        assert(text::texts(command.args@) =~= text::texts(basic) + text::texts(added));
        let kill_args: Vec<&str> = vec!["kill", "--signal", "KILL", name.as_str()];
        assert(text::str_texts(kill_args@) =~= crate::coordinator::docker::kill_args(name@));
        let kill: CommandLine = CommandLine {
            program: "docker".to_owned(),
            args: to_strings(&kill_args),
        };
        let (kill, was_inserted) = TerminateContainer::new(name, kill, containers);
        (command, kill, was_inserted)
    }
}

/// Containers with different numbers or names have different names.
pub proof fn container_names_are_unique(a: Seq<char>, b: Seq<char>)
    requires
        container_name(a) == container_name(b),
    ensures
        a == b,
{
    let n = "wasmbuild-"@.len() as int;
    assert(container_name(a).skip(n) =~= a);
    assert(container_name(b).skip(n) =~= b);
}

/// Whatever the container is called and whatever the processor, the worker runs without any
/// capability, without a network, with one gigabyte of memory and two with swap, with at
/// most 512 processes, and first to be killed when memory runs out; on the platform of the
/// processor, under its name, attached to its three streams, removed when it ends, and as
/// the worker of the stable image in its directory. The command that ends it kills that
/// very name.
pub proof fn workers_run_confined(arch: TargetArch, id: Seq<char>)
    ensures
        ({
            let name = "wasmbuild-"@ + id;
            let args = secure_args(arch) + worker_args(container_name(id));
            &&& container_name(id) == name
            &&& args.len() == 27
            &&& args[0] == "run"@
            &&& args[1] == "--platform"@
            &&& args[2] == match arch {
                TargetArch::X86_64 => "linux/amd64"@,
                TargetArch::Aarch64 => "linux/arm64"@,
            }
            &&& args[3] == "--cap-drop=ALL"@
            &&& args[4] == "--net"@ && args[5] == "none"@
            &&& args[6] == "--memory"@ && args[7] == "1g"@
            &&& args[8] == "--memory-swap"@ && args[9] == "2g"@
            &&& args[10] == "--pids-limit"@ && args[11] == "512"@
            &&& args[12] == "--oom-score-adj"@ && args[13] == "1000"@
            &&& args[14] == "--name"@ && args[15] == name
            &&& args[16] == "-i"@
            &&& args[17] == "-a"@ && args[18] == "stdin"@
            &&& args[19] == "-a"@ && args[20] == "stdout"@
            &&& args[21] == "-a"@ && args[22] == "stderr"@
            &&& args[23] == "--rm"@
            &&& args[24] == "rust-stable"@
            &&& args[25] == "worker"@ && args[26] == "/wasmbuild"@
            &&& kill_args(container_name(id)) == seq!["kill"@, "--signal"@, "KILL"@, name]
        }),
{
}

/// The command that starts a worker is that of a confined container under a name of its own;
/// that name is listed from then on, and what ends the container kills that very name.
pub proof fn prepared_worker_is_confined_and_listed(
    backend: &DockerBackend,
    id: &str,
    arch: TargetArch,
    containers: &mut TrackedContainers,
    r: (CommandLine, TerminateContainer, bool),
)
    requires
        call_ensures(DockerBackend::prepare_worker_command, (backend, id, arch, containers), r),
    ensures
        ({
            let name = "wasmbuild-"@ + id@;
            let args = r.0.args@;
            &&& r.0.program@ == "podman"@
            &&& args.len() == 27
            &&& args[2]@ == match arch {
                TargetArch::X86_64 => "linux/amd64"@,
                TargetArch::Aarch64 => "linux/arm64"@,
            }
            &&& args[3]@ == "--cap-drop=ALL"@
            &&& args[4]@ == "--net"@ && args[5]@ == "none"@
            &&& args[6]@ == "--memory"@ && args[7]@ == "1g"@
            &&& args[8]@ == "--memory-swap"@ && args[9]@ == "2g"@
            &&& args[10]@ == "--pids-limit"@ && args[11]@ == "512"@
            &&& args[14]@ == "--name"@ && args[15]@ == name
            &&& args[23]@ == "--rm"@
            &&& args[24]@ == "rust-stable"@ && args[25]@ == "worker"@
            &&& final(containers)@ == old(containers)@.insert(name)
            &&& r.2 <==> !old(containers)@.contains(name)
            &&& r.1@ matches Some(pending)
            &&& pending.name == name
            &&& pending.program == "docker"@
            &&& pending.args == seq!["kill"@, "--signal"@, "KILL"@, name]
        }),
{
    workers_run_confined(arch, id@);
    text::texts_are_of_each(r.0.args@, Seq::empty());
    let told = text::texts(r.0.args@);
    assert(forall|i: int| 0 <= i < told.len() ==> #[trigger] r.0.args@[i]@ == told[i]);
}

} // verus!
