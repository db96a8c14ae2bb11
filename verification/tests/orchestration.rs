use cross_llvm::build_image::{
    build_container_image, plan_build, BuildContainerImageArgs, BuildError, BuildPhase,
    BuildSession, ContainerError,
};
use cross_llvm::containers::{select, ContainerEngine};
use cross_llvm::errors::CrossLlvmError;
use cross_llvm::invocation::StdioPolicy;
use cross_llvm::run::{forwarded_exit_status, plan_run, run, Run};
use cross_llvm::target::{Architecture, Host, SupportedTriple};

fn x86_64_host() -> Host {
    Host {
        architecture: Some(Architecture::X86_64),
        identifier: "x86_64-unknown-linux-gnu".to_string(),
    }
}

#[test]
fn engine_selection_prefers_docker() {
    assert_eq!(select(None, true, true), Ok(ContainerEngine::Docker));
    assert_eq!(select(None, true, false), Ok(ContainerEngine::Docker));
    assert_eq!(select(None, false, true), Ok(ContainerEngine::Podman));
}

#[test]
fn engine_selection_fails_when_none_found() {
    assert_eq!(select(None, false, false), Err(CrossLlvmError::ContainerEngineNotFound));
    assert_eq!(
        CrossLlvmError::ContainerEngineNotFound.message(),
        "no supported container engine (docker, podman) was found"
    );
}

#[test]
fn explicit_engine_is_returned_unchanged() {
    // Explicitly chosen engines are not probed: podman stays chosen even
    // where docker is also present.
    assert_eq!(select(Some(ContainerEngine::Podman), true, true), Ok(ContainerEngine::Podman));
    assert_eq!(select(Some(ContainerEngine::Docker), false, false), Ok(ContainerEngine::Docker));
}

#[test]
fn autodetect_returns_a_supported_engine_or_fails() {
    match ContainerEngine::autodetect() {
        Ok(e) => {
            let name = e.name();
            assert!(name == "docker" || name == "podman");
        },
        Err(e) => assert_eq!(e, CrossLlvmError::ContainerEngineNotFound),
    }
}

#[test]
fn run_invocation_is_composed_exactly() {
    let args = Run {
        container_engine: Some(ContainerEngine::Docker),
        container_image: Some("ghcr.io/exein-io/cross-llvm/native-x86_64-unknown-linux-gnu".to_string()),
        cmd: vec!["clang".to_string(), "--version".to_string()],
        target: None,
    };
    let inv = plan_run(args, &x86_64_host(), false, false, "/work/project").unwrap();
    assert_eq!(inv.program, "docker");
    assert_eq!(
        inv.args,
        vec![
            "run",
            "--rm",
            "-it",
            "-v",
            "/work/project:/src",
            "-w",
            "/src",
            "ghcr.io/exein-io/cross-llvm/native-x86_64-unknown-linux-gnu",
            "clang",
            "--version",
        ]
        .into_iter()
        .map(str::to_string)
        .collect::<Vec<String>>()
    );
    assert_eq!(inv.stdio, StdioPolicy::InheritAll);
}

#[test]
fn run_derives_image_from_target_when_none_given() {
    let args = Run {
        container_engine: Some(ContainerEngine::Podman),
        container_image: None,
        cmd: vec!["make".to_string()],
        target: Some(SupportedTriple::Aarch64UnknownLinuxGnu),
    };
    let inv = plan_run(args, &x86_64_host(), false, false, "/work").unwrap();
    assert_eq!(inv.program, "podman");
    assert_eq!(inv.args[7], "ghcr.io/exein-io/cross-llvm/cross-aarch64-unknown-linux-gnu");
}

#[test]
fn run_fails_only_for_want_of_an_engine() {
    let args = Run {
        container_engine: None,
        container_image: Some("img".to_string()),
        cmd: vec![],
        target: None,
    };
    assert_eq!(
        plan_run(args, &x86_64_host(), false, false, "/work").unwrap_err(),
        CrossLlvmError::ContainerEngineNotFound
    );
}

#[test]
fn run_with_explicit_engine_and_image_never_probes() {
    let args = Run {
        container_engine: Some(ContainerEngine::Docker),
        container_image: Some("img".to_string()),
        cmd: vec!["true".to_string()],
        target: None,
    };
    let inv = run(args, "/tmp/src").unwrap();
    assert_eq!(inv.program, "docker");
    assert_eq!(inv.args[4], "/tmp/src:/src");
    assert_eq!(inv.args[7], "img");
    assert_eq!(inv.args[8], "true");
}

#[test]
fn run_forwards_exit_status_unchanged() {
    assert_eq!(forwarded_exit_status(0), 0);
    assert_eq!(forwarded_exit_status(1), 1);
    assert_eq!(forwarded_exit_status(137), 137);
}

fn build_args(tags: Vec<&str>, push: bool, no_cache: bool) -> BuildContainerImageArgs {
    BuildContainerImageArgs {
        container_engine: Some(ContainerEngine::Docker),
        no_cache,
        push,
        tags: tags.into_iter().map(str::to_string).collect(),
        target: Some(SupportedTriple::Aarch64UnknownLinuxGnu),
    }
}

#[test]
fn missing_recipe_is_unsupported_target_and_spawns_nothing() {
    let r = plan_build(build_args(vec![], false, false), &x86_64_host(), false, false, false);
    match r {
        Err(BuildError::Container(ContainerError::UnsupportedTarget(t))) => {
            assert_eq!(t, "aarch64-unknown-linux-gnu");
        },
        _ => panic!("expected an unsupported-target failure"),
    }
    // No session exists, so there is no invocation to spawn at all.
}

#[test]
fn missing_engine_fails_the_build_plan() {
    let mut args = build_args(vec![], false, false);
    args.container_engine = None;
    let r = plan_build(args, &x86_64_host(), false, false, true);
    match r {
        Err(BuildError::Engine(e)) => assert_eq!(e, CrossLlvmError::ContainerEngineNotFound),
        _ => panic!("expected an engine failure"),
    }
}

#[test]
fn zero_tags_default_to_the_derived_tag() {
    let session = plan_build(build_args(vec![], false, false), &x86_64_host(), false, false, true)
        .unwrap();
    assert_eq!(
        session.tags,
        vec!["ghcr.io/exein-io/cross-llvm/cross-aarch64-unknown-linux-gnu".to_string()]
    );
}

#[test]
fn explicit_tags_are_kept() {
    let session = plan_build(build_args(vec!["a", "b"], false, false), &x86_64_host(), false, false, true)
        .unwrap();
    assert_eq!(session.tags, vec!["a".to_string(), "b".to_string()]);
}

#[test]
fn build_invocation_is_composed_exactly() {
    let session = plan_build(build_args(vec!["one", "two"], false, true), &x86_64_host(), false, false, true)
        .unwrap();
    let inv = session.next_action().unwrap();
    assert_eq!(inv.program, "docker");
    assert_eq!(
        inv.args,
        vec![
            "buildx",
            "build",
            "-t",
            "one",
            "-t",
            "two",
            "-f",
            "containers/Dockerfile.cross-aarch64-unknown-linux-gnu",
            ".",
            "--no-cache",
        ]
        .into_iter()
        .map(str::to_string)
        .collect::<Vec<String>>()
    );
    assert_eq!(inv.stdio, StdioPolicy::InheritOutput);
}

#[test]
fn build_without_push_ends_after_the_build() {
    let mut session = plan_build(build_args(vec![], false, false), &x86_64_host(), false, false, true)
        .unwrap();
    assert_eq!(session.phase, BuildPhase::Building);
    session.advance(true);
    assert_eq!(session.phase, BuildPhase::Done);
    assert!(session.next_action().is_none());
    assert_eq!(session.outcome(), Some(Ok(())));
}

#[test]
fn failed_build_reports_container_image_build() {
    let mut session = plan_build(build_args(vec![], true, false), &x86_64_host(), false, false, true)
        .unwrap();
    session.advance(false);
    assert_eq!(session.phase, BuildPhase::FailedBuild);
    assert!(session.next_action().is_none());
    assert_eq!(session.outcome(), Some(Err(ContainerError::ContainerImageBuild)));
    assert_eq!(
        ContainerError::ContainerImageBuild.message(),
        "failed to build a container image"
    );
}

#[test]
fn second_push_failure_skips_the_third_tag() {
    let mut session = plan_build(build_args(vec!["a", "b", "c"], true, false), &x86_64_host(), false, false, true)
        .unwrap();
    // The build succeeds, then the pushes run strictly in order.
    session.advance(true);
    let first = session.next_action().unwrap();
    assert_eq!(first.args, vec!["push".to_string(), "a".to_string()]);
    session.advance(true);
    let second = session.next_action().unwrap();
    assert_eq!(second.args, vec!["push".to_string(), "b".to_string()]);
    // The second push fails: the session is over at once, the push of "c"
    // is never offered, and the overall result is the push failure.
    session.advance(false);
    assert_eq!(session.phase, BuildPhase::FailedPush);
    assert!(session.next_action().is_none());
    session.advance(true);
    assert!(session.next_action().is_none());
    assert_eq!(session.outcome(), Some(Err(ContainerError::ContainerImagePush)));
    assert_eq!(
        ContainerError::ContainerImagePush.message(),
        "failed to push a container image"
    );
}

#[test]
fn all_pushes_succeeding_ends_in_done() {
    let mut session = plan_build(build_args(vec!["a", "b"], true, false), &x86_64_host(), false, false, true)
        .unwrap();
    session.advance(true);
    assert_eq!(session.phase, BuildPhase::Pushing(0));
    session.advance(true);
    assert_eq!(session.phase, BuildPhase::Pushing(1));
    session.advance(true);
    assert_eq!(session.phase, BuildPhase::Done);
    assert_eq!(session.outcome(), Some(Ok(())));
}

#[test]
fn build_container_image_reports_the_missing_recipe() {
    // No containers/ directory exists here, so the recipe check fails for
    // every supported target and the engine is never consulted.
    let r = build_container_image(build_args(vec![], false, false));
    match r {
        Err(e @ BuildError::Container(ContainerError::UnsupportedTarget(_))) => {
            assert_eq!(
                e.message(),
                "containerized builds are not supported for target aarch64-unknown-linux-gnu"
            );
        },
        _ => panic!("expected an unsupported-target failure"),
    }
}
