//! The run orchestrator: compose the container-engine invocation that runs a
//! user command inside the platform's image, with the working directory
//! bind-mounted.

use vstd::prelude::*;
use vstd::string::StringExecFns;

use crate::containers::{executable_on_path, select, spec_select, ContainerEngine};
use crate::errors::CrossLlvmError;
use crate::invocation::{Invocation, StdioPolicy};
use crate::target::{
    container_tag, detect_host, platform_cross, platform_identifier, spec_container_tag,
    spec_platform_cross, spec_platform_identifier, Host, SupportedTriple,
};

verus! {

/// Arguments of the `run` subcommand.
pub struct Run {
    /// Container engine; autodetected when absent.
    pub container_engine: Option<ContainerEngine>,
    /// Container image to use; the platform's derived tag when absent.
    pub container_image: Option<String>,
    /// The command to run inside the container.
    pub cmd: Vec<String>,
    /// Target triple; the host platform when absent.
    pub target: Option<SupportedTriple>,
}

/// The argument list of
/// `{engine} run --rm -it -v {mount} -w /src {image} {cmd...}`.
pub open spec fn spec_run_args(mount: Seq<char>, image: Seq<char>, cmd: Seq<Seq<char>>) -> Seq<
    Seq<char>,
> {
    seq!["run"@, "--rm"@, "-it"@, "-v"@, mount, "-w"@, "/src"@, image] + cmd
}

/// The image a run uses: the explicit one when given, else the tag derived
/// from the targeted platform.
pub open spec fn spec_run_image(args: Run, host: Host) -> Seq<char> {
    match args.container_image {
        Some(img) => img@,
        None => spec_container_tag(
            spec_platform_identifier(args.target, host),
            spec_platform_cross(args.target, host),
        ),
    }
}

/// Compose the engine invocation that runs `cmd` inside `image`, with `cwd`
/// bind-mounted at `/src` and all standard streams passed through.
pub fn run_invocation(engine: &ContainerEngine, image: String, cwd: &str, cmd: &Vec<String>) -> (inv:
    Invocation)
    ensures
        inv.program@ == engine.spec_name(),
        inv.args.deep_view() == spec_run_args(cwd@ + ":/src"@, image@, cmd.deep_view()),
        inv.stdio == StdioPolicy::InheritAll,
{
    let ghost image_view = image@;
    let ghost mount_view = cwd@ + ":/src"@;
    let mut mount = cwd.to_owned();
    mount.append(":/src");
    let mut args: Vec<String> = Vec::new();
    args.push("run".to_owned());
    args.push("--rm".to_owned());
    args.push("-it".to_owned());
    args.push("-v".to_owned());
    args.push(mount);
    args.push("-w".to_owned());
    args.push("/src".to_owned());
    args.push(image);
    let mut i: usize = 0;
    while i < cmd.len()
        invariant
            i <= cmd@.len(),
            args@.len() == 8 + i,
            args@[0]@ == "run"@,
            args@[1]@ == "--rm"@,
            args@[2]@ == "-it"@,
            args@[3]@ == "-v"@,
            args@[4]@ == mount_view,
            args@[5]@ == "-w"@,
            args@[6]@ == "/src"@,
            args@[7]@ == image_view,
            forall|j: int| 0 <= j < i ==> args@[8 + j]@ == cmd@[j]@,
        decreases cmd@.len() - i,
    {
        args.push(cmd[i].clone());
        i = i + 1;
    }
    proof {
        assert(args.deep_view() =~~= spec_run_args(mount_view, image_view, cmd.deep_view()));
    }
    Invocation { program: engine.name(), args, stdio: StdioPolicy::InheritAll }
}

/// Decide everything a run needs from its arguments, the host, and the two
/// engine probes: which engine, which image, and the full invocation.
pub fn plan_run(args: Run, host: &Host, docker_found: bool, podman_found: bool, cwd: &str) -> (r:
    Result<Invocation, CrossLlvmError>)
    ensures
        match spec_select(args.container_engine, docker_found, podman_found) {
            Err(e) => r == Err::<Invocation, CrossLlvmError>(e),
            Ok(engine) => r matches Ok(inv) && {
                &&& inv.program@ == engine.spec_name()
                &&& inv.args.deep_view() == spec_run_args(
                    cwd@ + ":/src"@,
                    spec_run_image(args, *host),
                    args.cmd.deep_view(),
                )
                &&& inv.stdio == StdioPolicy::InheritAll
            },
        },
{
    let engine = match select(args.container_engine, docker_found, podman_found) {
        Ok(e) => e,
        Err(e) => {
            return Err(e);
        },
    };
    let image = match args.container_image {
        Some(img) => img,
        None => {
            let id = platform_identifier(&args.target, host);
            let cross = platform_cross(&args.target, host);
            container_tag(id.as_str(), cross)
        },
    };
    Ok(run_invocation(&engine, image, cwd, &args.cmd))
}

/// Resolve platform, engine and image for the `run` subcommand and compose
/// the engine invocation. Probes the host for its platform and, when no
/// engine was chosen explicitly, for an installed engine; `plan_run` fixes
/// what every probe outcome yields.
pub fn run(args: Run, cwd: &str) -> (r: Result<Invocation, CrossLlvmError>)
    ensures
        args.container_engine matches Some(e) ==> r matches Ok(inv) && inv.program@
            == e.spec_name(),
        r matches Err(e) ==> args.container_engine is None && e
            == CrossLlvmError::ContainerEngineNotFound,
        r matches Ok(inv) ==> {
            &&& inv.stdio == StdioPolicy::InheritAll
            &&& (inv.program@ == "docker"@ || inv.program@ == "podman"@)
            &&& inv.args.deep_view().len() == 8 + args.cmd@.len()
            &&& inv.args.deep_view()[0] == "run"@
            &&& inv.args.deep_view()[1] == "--rm"@
            &&& inv.args.deep_view()[2] == "-it"@
            &&& inv.args.deep_view()[3] == "-v"@
            &&& inv.args.deep_view()[4] == cwd@ + ":/src"@
            &&& inv.args.deep_view()[5] == "-w"@
            &&& inv.args.deep_view()[6] == "/src"@
            &&& (args.container_image matches Some(img) ==> inv.args.deep_view()[7] == img@)
            &&& (args.container_image is None ==> (args.target matches Some(st) ==> exists|
                cross: bool,
            |
                inv.args.deep_view()[7] == #[trigger] spec_container_tag(
                    st.spec_resolve().spec_identifier(),
                    cross,
                )))
            &&& (args.container_image is None && args.target is None ==> exists|id: Seq<char>|
                inv.args.deep_view()[7] == #[trigger] spec_container_tag(id, false))
            &&& (forall|j: int|
                0 <= j < args.cmd@.len() ==> inv.args.deep_view()[8 + j] == args.cmd@[j]@)
        },
{
    let host = detect_host();
    let (docker_found, podman_found) = match args.container_engine {
        Some(_) => (false, false),
        None => (executable_on_path("docker"), executable_on_path("podman")),
    };
    let ghost gargs = args;
    let r = plan_run(args, &host, docker_found, podman_found, cwd);
    proof {
        if r is Ok && gargs.container_image is None {
            let sid = spec_platform_identifier(gargs.target, host);
            let scross = spec_platform_cross(gargs.target, host);
            assert(r->Ok_0.args.deep_view()[7] == spec_container_tag(sid, scross));
        }
    }
    r
}

/// The run orchestrator reports the child's exit status as the tool's own,
/// unchanged: a failing user command is not an orchestrator error, it is
/// surfaced through this exact numeric status.
pub fn forwarded_exit_status(status: i32) -> (r: i32)
    ensures
        r == status,
{
    status
}

} // verus!
