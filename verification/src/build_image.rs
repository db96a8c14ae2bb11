//! The build orchestrator: compose the container-engine build invocation for
//! a platform's Dockerfile, then the push invocation for each tag, and decide
//! every step of the build/push session.

use vstd::prelude::*;
use vstd::string::StringExecFns;

use crate::containers::{executable_on_path, select, spec_select, ContainerEngine};
use crate::errors::CrossLlvmError;
use crate::invocation::{Invocation, StdioPolicy};
use crate::target::{
    container_tag, detect_host, dockerfile_path, path_exists, platform_cross, platform_identifier,
    spec_container_tag, spec_dockerfile_path, spec_platform_cross, spec_platform_identifier, Host,
    SupportedTriple,
};

verus! {

/// Errors of the container build and push orchestration.
#[derive(Debug, PartialEq, Eq)]
pub enum ContainerError {
    /// No Dockerfile exists for the target, so no containerized build is
    /// defined for it.
    UnsupportedTarget(String),
    /// The engine's build child process exited with a non-success status.
    ContainerImageBuild,
    /// An engine's push child process exited with a non-success status.
    ContainerImagePush,
}

impl ContainerError {
    /// Human-readable description of the error.
    pub open spec fn spec_message(self) -> Seq<char> {
        match self {
            ContainerError::UnsupportedTarget(t) => "containerized builds are not supported for target "@
                + t@,
            ContainerError::ContainerImageBuild => "failed to build a container image"@,
            ContainerError::ContainerImagePush => "failed to push a container image"@,
        }
    }

    pub fn message(&self) -> (r: String)
        ensures
            r@ == self.spec_message(),
    {
        match self {
            ContainerError::UnsupportedTarget(t) => {
                let mut r = "containerized builds are not supported for target ".to_owned();
                r.append(t.as_str());
                r
            },
            ContainerError::ContainerImageBuild => "failed to build a container image".to_owned(),
            ContainerError::ContainerImagePush => "failed to push a container image".to_owned(),
        }
    }
}

/// Any failure of the `build-container-image` subcommand: engine resolution,
/// or the container work itself.
#[derive(Debug, PartialEq, Eq)]
pub enum BuildError {
    Engine(CrossLlvmError),
    Container(ContainerError),
}

impl BuildError {
    /// Human-readable description of the error.
    pub fn message(&self) -> (r: String)
        ensures
            self matches BuildError::Engine(e) ==> r@ == e.spec_message(),
            self matches BuildError::Container(c) ==> r@ == c.spec_message(),
    {
        match self {
            BuildError::Engine(e) => e.message(),
            BuildError::Container(c) => c.message(),
        }
    }
}

/// Arguments of the `build-container-image` subcommand.
pub struct BuildContainerImageArgs {
    /// Container engine; autodetected when absent.
    pub container_engine: Option<ContainerEngine>,
    /// Build from the start, without cached layers.
    pub no_cache: bool,
    /// Push the image after the build.
    pub push: bool,
    /// Container image tags; the platform's derived tag when none are given.
    pub tags: Vec<String>,
    /// Target triple; the host platform when absent.
    pub target: Option<SupportedTriple>,
}

/// The tags a build uses: the explicit ones when any were given, else
/// exactly the one derived tag.
pub open spec fn spec_effective_tags(tags: Seq<Seq<char>>, derived: Seq<char>) -> Seq<Seq<char>> {
    if tags.len() == 0 {
        seq![derived]
    } else {
        tags
    }
}

pub fn effective_tags(tags: Vec<String>, derived: String) -> (r: Vec<String>)
    ensures
        r.deep_view() == spec_effective_tags(tags.deep_view(), derived@),
        tags@.len() > 0 ==> r == tags,
        tags@.len() == 0 ==> r@.len() == 1 && r@[0]@ == derived@,
        r@.len() >= 1,
{
    if tags.len() == 0 {
        let mut r: Vec<String> = Vec::new();
        r.push(derived);
        proof {
            assert(r.deep_view() =~~= spec_effective_tags(tags.deep_view(), derived@));
        }
        r
    } else {
        tags
    }
}

/// The argument list of
/// `{engine} buildx build [-t {tag}]... -f {dockerfile} . [--no-cache]`.
pub open spec fn spec_build_args(
    tags: Seq<Seq<char>>,
    dockerfile: Seq<char>,
    no_cache: bool,
) -> Seq<Seq<char>> {
    seq!["buildx"@, "build"@] + spec_tag_args(tags) + seq!["-f"@, dockerfile, "."@] + if no_cache {
        seq!["--no-cache"@]
    } else {
        Seq::<Seq<char>>::empty()
    }
}

/// The `-t {tag}` pair for each tag, in order.
pub open spec fn spec_tag_args(tags: Seq<Seq<char>>) -> Seq<Seq<char>> {
    Seq::new(
        2 * tags.len(),
        |i: int|
            if i % 2 == 0 {
                "-t"@
            } else {
                tags[i / 2]
            },
    )
}

/// Compose the engine invocation that builds `dockerfile` under the given
/// tags, with output streams passed through.
pub fn build_invocation(
    engine: &ContainerEngine,
    tags: &Vec<String>,
    dockerfile: &String,
    no_cache: bool,
) -> (inv: Invocation)
    ensures
        inv.program@ == engine.spec_name(),
        inv.args.deep_view() == spec_build_args(tags.deep_view(), dockerfile@, no_cache),
        inv.stdio == StdioPolicy::InheritOutput,
{
    let mut args: Vec<String> = Vec::new();
    args.push("buildx".to_owned());
    args.push("build".to_owned());
    let ghost target_args = spec_build_args(tags.deep_view(), dockerfile@, no_cache);
    let mut i: usize = 0;
    while i < tags.len()
        invariant
            i <= tags@.len(),
            args@.len() == 2 + 2 * i,
            target_args == spec_build_args(tags.deep_view(), dockerfile@, no_cache),
            forall|k: int| 0 <= k < args@.len() ==> args@[k]@ == target_args[k],
        decreases tags@.len() - i,
    {
        args.push("-t".to_owned());
        args.push(tags[i].clone());
        i = i + 1;
        proof {
            assert forall|k: int| 0 <= k < args@.len() implies args@[k]@ == target_args[k] by {
                let tag_zone = spec_tag_args(tags.deep_view());
                if k >= 2 {
                    assert(target_args[k] == tag_zone[k - 2]);
                }
                if k == 2 + 2 * (i - 1) {
                    assert((k - 2) % 2 == 0 && (k - 2) / 2 == i - 1);
                } else if k == 2 + 2 * (i - 1) + 1 {
                    assert((k - 2) % 2 == 1 && (k - 2) / 2 == i - 1);
                }
            }
        }
    }
    args.push("-f".to_owned());
    args.push(dockerfile.clone());
    args.push(".".to_owned());
    if no_cache {
        args.push("--no-cache".to_owned());
    }
    proof {
        assert(args.deep_view().len() == target_args.len());
        assert forall|k: int|
            0 <= k < target_args.len() implies args.deep_view()[k] == target_args[k] by {
            assert(args.deep_view()[k] == args@[k]@);
        }
        assert(args.deep_view() =~~= target_args);
    }
    Invocation { program: engine.name(), args, stdio: StdioPolicy::InheritOutput }
}

/// Compose the engine invocation that pushes one tag, with output streams
/// passed through.
pub fn push_invocation(engine: &ContainerEngine, tag: &String) -> (inv: Invocation)
    ensures
        inv.program@ == engine.spec_name(),
        inv.args.deep_view() == seq!["push"@, tag@],
        inv.stdio == StdioPolicy::InheritOutput,
{
    let mut args: Vec<String> = Vec::new();
    args.push("push".to_owned());
    args.push(tag.clone());
    proof {
        assert(args.deep_view() =~~= seq!["push"@, tag@]);
    }
    Invocation { program: engine.name(), args, stdio: StdioPolicy::InheritOutput }
}

/// Where a build/push session stands.
#[derive(Clone, Copy, Debug, PartialEq, Eq, Structural)]
pub enum BuildPhase {
    /// The build has not run yet.
    Building,
    /// The build succeeded; the tag at this index is pushed next.
    Pushing(usize),
    /// Every step succeeded.
    Done,
    /// The build child process failed; nothing further runs.
    FailedBuild,
    /// A push child process failed; no later tag is attempted.
    FailedPush,
}

/// One build, then, if requested, one push per tag, strictly in order and
/// fail-fast: the session decides each next child process, the caller spawns
/// it and reports whether it succeeded.
pub struct BuildSession {
    pub engine: ContainerEngine,
    pub tags: Vec<String>,
    pub dockerfile: String,
    pub no_cache: bool,
    pub push: bool,
    pub phase: BuildPhase,
}

impl BuildSession {
    /// The session invariant: at least one tag, and the pushing index stays
    /// inside the tags.
    pub open spec fn wf(self) -> bool {
        &&& self.tags@.len() >= 1
        &&& (self.phase matches BuildPhase::Pushing(i) ==> self.push && i < self.tags@.len())
    }

    pub fn new(
        engine: ContainerEngine,
        tags: Vec<String>,
        dockerfile: String,
        no_cache: bool,
        push: bool,
    ) -> (s: Self)
        requires
            tags@.len() >= 1,
        ensures
            s.wf(),
            s.engine == engine,
            s.tags == tags,
            s.dockerfile == dockerfile,
            s.no_cache == no_cache,
            s.push == push,
            s.phase == BuildPhase::Building,
    {
        BuildSession { engine, tags, dockerfile, no_cache, push, phase: BuildPhase::Building }
    }

    /// The next child process to spawn, or `None` once the session is over:
    /// the build first, then one push per tag in order; nothing after a
    /// failure.
    pub fn next_action(&self) -> (r: Option<Invocation>)
        requires
            self.wf(),
        ensures
            match self.phase {
                BuildPhase::Building => r matches Some(inv) && inv.program@
                    == self.engine.spec_name() && inv.args.deep_view() == spec_build_args(
                    self.tags.deep_view(),
                    self.dockerfile@,
                    self.no_cache,
                ) && inv.stdio == StdioPolicy::InheritOutput,
                BuildPhase::Pushing(i) => r matches Some(inv) && inv.program@
                    == self.engine.spec_name() && inv.args.deep_view() == seq![
                    "push"@,
                    self.tags@[i as int]@,
                ] && inv.stdio == StdioPolicy::InheritOutput,
                BuildPhase::Done => r is None,
                BuildPhase::FailedBuild => r is None,
                BuildPhase::FailedPush => r is None,
            },
    {
        match self.phase {
            BuildPhase::Building => Some(
                build_invocation(&self.engine, &self.tags, &self.dockerfile, self.no_cache),
            ),
            BuildPhase::Pushing(i) => Some(push_invocation(&self.engine, &self.tags[i])),
            BuildPhase::Done => None,
            BuildPhase::FailedBuild => None,
            BuildPhase::FailedPush => None,
        }
    }

    /// The phase that follows one child-process result: a failed build ends
    /// the session with `FailedBuild`; a successful build moves to the first
    /// push, or straight to `Done` when pushing was not requested; a failed
    /// push ends the session with `FailedPush` at once; a successful push
    /// moves to the next tag, or to `Done` after the last; terminal phases
    /// stay as they are.
    pub open spec fn spec_step(self, success: bool) -> BuildPhase {
        match self.phase {
            BuildPhase::Building => if !success {
                BuildPhase::FailedBuild
            } else if self.push {
                BuildPhase::Pushing(0)
            } else {
                BuildPhase::Done
            },
            BuildPhase::Pushing(i) => if !success {
                BuildPhase::FailedPush
            } else if i + 1 < self.tags@.len() {
                BuildPhase::Pushing((i + 1) as usize)
            } else {
                BuildPhase::Done
            },
            BuildPhase::Done => BuildPhase::Done,
            BuildPhase::FailedBuild => BuildPhase::FailedBuild,
            BuildPhase::FailedPush => BuildPhase::FailedPush,
        }
    }

    /// Record whether the spawned child process succeeded, and move to the
    /// next phase.
    pub fn advance(&mut self, success: bool)
        requires
            old(self).wf(),
        ensures
            final(self).wf(),
            final(self).engine == old(self).engine,
            final(self).tags == old(self).tags,
            final(self).dockerfile == old(self).dockerfile,
            final(self).no_cache == old(self).no_cache,
            final(self).push == old(self).push,
            final(self).phase == old(self).spec_step(success),
    {
        match self.phase {
            BuildPhase::Building => {
                self.phase = if !success {
                    BuildPhase::FailedBuild
                } else if self.push {
                    BuildPhase::Pushing(0)
                } else {
                    BuildPhase::Done
                };
            },
            BuildPhase::Pushing(i) => {
                let tag_count = self.tags.len();
                proof {
                    assert(i < self.tags@.len());
                }
                self.phase = if !success {
                    BuildPhase::FailedPush
                } else if i + 1 < tag_count {
                    BuildPhase::Pushing(i + 1)
                } else {
                    BuildPhase::Done
                };
            },
            BuildPhase::Done => {},
            BuildPhase::FailedBuild => {},
            BuildPhase::FailedPush => {},
        }
    }

    /// The session's result, once it is over: success after `Done`, the
    /// step's error after a failure, and nothing while work remains.
    pub fn outcome(&self) -> (r: Option<Result<(), ContainerError>>)
        ensures
            match self.phase {
                BuildPhase::Done => r == Some(Ok::<(), ContainerError>(())),
                BuildPhase::FailedBuild => r == Some(
                    Err::<(), ContainerError>(ContainerError::ContainerImageBuild),
                ),
                BuildPhase::FailedPush => r == Some(
                    Err::<(), ContainerError>(ContainerError::ContainerImagePush),
                ),
                BuildPhase::Building => r is None,
                BuildPhase::Pushing(_) => r is None,
            },
    {
        match self.phase {
            BuildPhase::Done => Some(Ok(())),
            BuildPhase::FailedBuild => Some(Err(ContainerError::ContainerImageBuild)),
            BuildPhase::FailedPush => Some(Err(ContainerError::ContainerImagePush)),
            BuildPhase::Building => None,
            BuildPhase::Pushing(_) => None,
        }
    }
}

/// The session with its phase replaced.
pub open spec fn spec_with_phase(s: BuildSession, phase: BuildPhase) -> BuildSession {
    BuildSession { phase, ..s }
}

/// The phase a session reaches after a sequence of child-process results.
pub open spec fn spec_phase_after(s: BuildSession, results: Seq<bool>) -> BuildPhase
    decreases results.len(),
{
    if results.len() == 0 {
        s.phase
    } else {
        spec_phase_after(spec_with_phase(s, s.spec_step(results[0])), results.drop_first())
    }
}

/// Fail-fast: when the push of some tag fails, the session ends at once with
/// the push failure; the following tags are never reached.
pub proof fn lemma_push_failure_ends_session(s: BuildSession)
    requires
        s.wf(),
        s.phase matches BuildPhase::Pushing(_),
    ensures
        s.spec_step(false) == BuildPhase::FailedPush,
{
}

/// A failure is absorbing: however many further results arrive, a session
/// that failed keeps its failed phase, so `next_action` yields no further
/// invocation and no later tag is ever attempted.
pub proof fn lemma_failure_is_absorbing(s: BuildSession, results: Seq<bool>)
    requires
        s.phase == BuildPhase::FailedBuild || s.phase == BuildPhase::FailedPush,
    ensures
        spec_phase_after(s, results) == s.phase,
    decreases results.len(),
{
    if results.len() > 0 {
        lemma_failure_is_absorbing(
            spec_with_phase(s, s.spec_step(results[0])),
            results.drop_first(),
        );
    }
}

/// A session that sees only successful child processes completes: the build
/// runs, then, when pushing was requested, one push per tag, and the
/// session ends in `Done`.
pub proof fn lemma_all_successes_complete_the_session(s: BuildSession, results: Seq<bool>)
    requires
        s.wf(),
        s.phase == BuildPhase::Building,
        results.len() == if s.push {
            1 + s.tags@.len()
        } else {
            1
        },
        forall|j: int| 0 <= j < results.len() ==> results[j],
    ensures
        spec_phase_after(s, results) == BuildPhase::Done,
{
    assert(results[0]);
    let s1 = spec_with_phase(s, s.spec_step(true));
    let rest = results.drop_first();
    assert forall|j: int| 0 <= j < rest.len() implies rest[j] by {
        assert(results[j + 1]);
    }
    if s.push {
        lemma_pushes_complete(s1, rest);
    } else {
        assert(spec_phase_after(s1, rest) == s1.phase);
    }
}

proof fn lemma_pushes_complete(s: BuildSession, results: Seq<bool>)
    requires
        s.wf(),
        s.phase matches BuildPhase::Pushing(i) && results.len() == s.tags@.len() - i,
        forall|j: int| 0 <= j < results.len() ==> results[j],
    ensures
        spec_phase_after(s, results) == BuildPhase::Done,
    decreases results.len(),
{
    broadcast use vstd::std_specs::vec::axiom_spec_len;

    let i = s.phase->0;
    assert(s.tags@.len() == s.tags.len());
    assert(results[0]);
    let s1 = spec_with_phase(s, s.spec_step(true));
    let rest = results.drop_first();
    assert forall|j: int| 0 <= j < rest.len() implies rest[j] by {
        assert(results[j + 1]);
    }
    if i + 1 < s.tags@.len() {
        lemma_pushes_complete(s1, rest);
    } else {
        assert(spec_phase_after(s1, rest) == s1.phase);
    }
}

/// Decide everything a build needs from its arguments, the host, the two
/// engine probes, and whether the platform's Dockerfile exists: without a
/// Dockerfile the build is refused as `UnsupportedTarget` before any engine
/// is resolved; otherwise the session starts at the build step, over the
/// explicit tags or the one derived tag.
pub fn plan_build(
    args: BuildContainerImageArgs,
    host: &Host,
    docker_found: bool,
    podman_found: bool,
    recipe_exists: bool,
) -> (r: Result<BuildSession, BuildError>)
    ensures
        ({
            let id = spec_platform_identifier(args.target, *host);
            let cross = spec_platform_cross(args.target, *host);
            &&& (!recipe_exists ==> (r matches Err(
                BuildError::Container(ContainerError::UnsupportedTarget(t)),
            ) && t@ == id))
            &&& (recipe_exists ==> match spec_select(
                args.container_engine,
                docker_found,
                podman_found,
            ) {
                Err(e) => r == Err::<BuildSession, BuildError>(BuildError::Engine(e)),
                Ok(engine) => r matches Ok(s) && {
                    &&& s.wf()
                    &&& s.phase == BuildPhase::Building
                    &&& s.engine == engine
                    &&& s.no_cache == args.no_cache
                    &&& s.push == args.push
                    &&& s.dockerfile@ == spec_dockerfile_path(id, cross)
                    &&& s.tags.deep_view() == spec_effective_tags(
                        args.tags.deep_view(),
                        spec_container_tag(id, cross),
                    )
                    &&& (args.tags@.len() > 0 ==> s.tags == args.tags)
                },
            })
        }),
{
    let id = platform_identifier(&args.target, host);
    let cross = platform_cross(&args.target, host);
    if !recipe_exists {
        return Err(BuildError::Container(ContainerError::UnsupportedTarget(id)));
    }
    let engine = match select(args.container_engine, docker_found, podman_found) {
        Ok(e) => e,
        Err(e) => {
            return Err(BuildError::Engine(e));
        },
    };
    let derived = container_tag(id.as_str(), cross);
    let tags = effective_tags(args.tags, derived);
    let dockerfile = dockerfile_path(id.as_str(), cross);
    Ok(BuildSession::new(engine, tags, dockerfile, args.no_cache, args.push))
}

/// Resolve platform, Dockerfile, engine and tags for the
/// `build-container-image` subcommand and start the build/push session.
/// Probes the host for its platform, the filesystem for the Dockerfile and,
/// when no engine was chosen explicitly, the search path for an installed
/// engine; `plan_build` fixes what every probe outcome yields.
pub fn build_container_image(args: BuildContainerImageArgs) -> (r: Result<BuildSession, BuildError>)
    ensures
        r matches Err(BuildError::Engine(e)) ==> args.container_engine is None && e
            == CrossLlvmError::ContainerEngineNotFound,
        r matches Err(BuildError::Container(c)) ==> c matches ContainerError::UnsupportedTarget(t)
            && (args.target matches Some(st) ==> t@ == st.spec_resolve().spec_identifier()),
        r matches Ok(s) ==> {
            &&& s.wf()
            &&& s.phase == BuildPhase::Building
            &&& s.no_cache == args.no_cache
            &&& s.push == args.push
            &&& (args.container_engine matches Some(e) ==> s.engine == e)
            &&& (args.tags@.len() > 0 ==> s.tags == args.tags)
            &&& (args.tags@.len() == 0 ==> s.tags@.len() == 1)
            &&& (args.target matches Some(st) ==> {
                let id = st.spec_resolve().spec_identifier();
                exists|cross: bool|
                    s.dockerfile@ == #[trigger] spec_dockerfile_path(id, cross) && (args.tags@.len()
                        == 0 ==> s.tags@[0]@ == spec_container_tag(id, cross))
            })
        },
{
    let host = detect_host();
    let id = platform_identifier(&args.target, &host);
    let cross = platform_cross(&args.target, &host);
    let path = dockerfile_path(id.as_str(), cross);
    let recipe_exists = path_exists(path.as_str());
    let (docker_found, podman_found) = match args.container_engine {
        Some(_) => (false, false),
        None => (executable_on_path("docker"), executable_on_path("podman")),
    };
    let ghost gargs = args;
    let r = plan_build(args, &host, docker_found, podman_found, recipe_exists);
    proof {
        let sid = spec_platform_identifier(gargs.target, host);
        let scross = spec_platform_cross(gargs.target, host);
        if r is Ok {
            let s = r->Ok_0;
            assert(s.dockerfile@ == spec_dockerfile_path(sid, scross));
            assert(s.tags.deep_view().len() == s.tags@.len());
            if gargs.tags@.len() == 0 {
                assert(s.tags.deep_view() == spec_effective_tags(
                    gargs.tags.deep_view(),
                    spec_container_tag(sid, scross),
                ));
                assert(s.tags.deep_view()[0] == s.tags@[0]@);
                assert(s.tags@[0]@ == spec_container_tag(sid, scross));
            }
        }
    }
    r
}

} // verus!
