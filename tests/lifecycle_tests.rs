use actor_registry::error::RegistryError;
use actor_registry::lifecycle::{
    ArtifactProbe, BuildLocks, BuildOptions, BuildRun, BuildStep, Timestamp, ToolOutcome,
};
use actor_registry::status::BuildStatus;

fn ts() -> Timestamp {
    Timestamp { year: 2024, month: 3, day: 7, hour: 9, minute: 5, second: 2 }
}

fn run(has_manifest: bool) -> BuildRun {
    BuildRun {
        actor_name: "foo".to_string(),
        actor_path: "/reg/foo".to_string(),
        started: ts(),
        has_manifest,
    }
}

fn exited(success: bool, stdout: &str, stderr: &str) -> ToolOutcome {
    ToolOutcome::Exited {
        success,
        exit_status: if success { "exit status: 0".to_string() } else { "exit status: 1".to_string() },
        stdout: stdout.to_string(),
        stderr: stderr.to_string(),
    }
}

#[test]
fn timestamp_compact_form() {
    assert_eq!(ts().compact(), "20240307_090502");
    let t = Timestamp { year: 999, month: 12, day: 31, hour: 23, minute: 59, second: 59 };
    assert_eq!(t.compact(), "09991231_235959");
}

#[test]
fn run_paths() {
    let r = run(true);
    assert_eq!(r.metadata_dir(), "/reg/foo/.build_info");
    assert_eq!(r.status_file(), "/reg/foo/.build_info/status");
    assert_eq!(r.record_file(), "/reg/foo/.build_info/build_info.json");
    assert_eq!(r.log_path(), "/reg/foo/.build_info/build_20240307_090502.log");
}

#[test]
fn tool_invocation() {
    let inv = run(true).invocation();
    assert_eq!(inv.program, "/nix/var/nix/profiles/default/bin/nix");
    assert_eq!(inv.args, vec!["build", "--no-link", "--print-out-paths"]);
    assert_eq!(inv.working_dir, "/reg/foo");
}

#[test]
fn spawn_failure_is_recorded_as_failed() {
    let step = run(true).after_tool(
        ToolOutcome::SpawnFailed { message: "No such file or directory".to_string() },
        3,
        1700000000,
    );
    let rep = match step {
        BuildStep::Finished(rep) => rep,
        BuildStep::CheckArtifact(_) => panic!("expected a finished attempt"),
    };
    assert_eq!(rep.info.build_status, BuildStatus::Failed);
    assert_eq!(
        rep.info.error_message.as_deref(),
        Some("Failed to execute nix build command: No such file or directory")
    );
    assert_eq!(rep.info.build_duration, Some(3));
    assert_eq!(rep.info.last_build_time, Some(1700000000));
    assert!(rep.info.component_hash.is_none());
    assert_eq!(
        rep.log,
        "=== Build Log for foo ===\nDate: 20240307_090502\nBuilder: nix\nDuration: 3 seconds\n\nCommand: /nix/var/nix/profiles/default/bin/nix build --no-link --print-out-paths\nERROR: Failed to execute nix build command: No such file or directory\n"
    );
    assert!(matches!(rep.result, Err(RegistryError::ToolInvocationError { .. })));
}

#[test]
fn nonzero_exit_records_failure_with_stderr_excerpt() {
    let stderr = "evaluating...\nerror: builder for '/nix/store/x.drv' failed\n";
    let step = run(true).after_tool(exited(false, "", stderr), 12, 1700000100);
    let rep = match step {
        BuildStep::Finished(rep) => rep,
        BuildStep::CheckArtifact(_) => panic!("expected a finished attempt"),
    };
    assert_eq!(rep.info.build_status, BuildStatus::Failed);
    assert_eq!(rep.info.build_status.marker().as_deref(), Some("FAILED"));
    assert_eq!(
        rep.info.error_message.as_deref(),
        Some("error: builder for '/nix/store/x.drv' failed")
    );
    assert!(rep.info.component_hash.is_none());
    assert!(rep.info.component_size.is_none());
    assert!(rep.log.contains(stderr));
    assert!(rep.log.contains("=== Exit Status: exit status: 1 ===\n"));
    assert_eq!(rep.info.build_log.as_deref(), Some("/reg/foo/.build_info/build_20240307_090502.log"));
    match rep.result {
        Err(RegistryError::BuildFailedError { exit_status, excerpt }) => {
            assert_eq!(exit_status, "exit status: 1");
            assert_eq!(excerpt.as_deref(), Some("error: builder for '/nix/store/x.drv' failed"));
        }
        _ => panic!("expected a build failure"),
    }
}

#[test]
fn nonzero_exit_without_marker_has_no_message() {
    let step = run(true).after_tool(exited(false, "", "killed\n"), 1, 5);
    match step {
        BuildStep::Finished(rep) => {
            assert_eq!(rep.info.build_status, BuildStatus::Failed);
            assert!(rep.info.error_message.is_none());
        }
        BuildStep::CheckArtifact(_) => panic!("expected a finished attempt"),
    }
}

#[test]
fn empty_output_path_is_a_resolution_error() {
    let step = run(true).after_tool(exited(true, "  \n", ""), 1, 5);
    match step {
        BuildStep::Finished(rep) => {
            assert_eq!(rep.info.build_status, BuildStatus::Failed);
            assert!(matches!(rep.result, Err(RegistryError::OutputResolutionError)));
            assert!(rep.info.component_hash.is_none());
        }
        BuildStep::CheckArtifact(_) => panic!("expected a finished attempt"),
    }
}

#[test]
fn successful_tool_names_the_artifact() {
    let step = run(true).after_tool(exited(true, "/nix/store/abc-foo\n", ""), 1, 5);
    match step {
        BuildStep::CheckArtifact(p) => {
            assert_eq!(p.path, "/nix/store/abc-foo/lib/foo.wasm");
            assert_eq!(p.stdout, "/nix/store/abc-foo\n");
        }
        BuildStep::Finished(_) => panic!("expected an artifact check"),
    }
}

#[test]
fn missing_artifact_is_recorded_as_failed() {
    let r = run(true);
    let pending = match r.after_tool(exited(true, "/nix/store/abc-foo", ""), 1, 5) {
        BuildStep::CheckArtifact(p) => p,
        BuildStep::Finished(_) => panic!("expected an artifact check"),
    };
    let rep = r.conclude(pending, ArtifactProbe { exists: false, hash: None, size: None }, 2, 6);
    assert_eq!(rep.info.build_status, BuildStatus::Failed);
    assert!(rep.info.component_hash.is_none());
    assert!(rep.component_path.is_none());
    match rep.result {
        Err(RegistryError::ArtifactNotFoundError { path }) => {
            assert_eq!(path, "/nix/store/abc-foo/lib/foo.wasm")
        }
        _ => panic!("expected a missing artifact"),
    }
}

#[test]
fn successful_build_records_hash_size_and_path() {
    let r = run(true);
    let pending = match r.after_tool(exited(true, "/nix/store/abc-foo\n", "note\n"), 40, 100) {
        BuildStep::CheckArtifact(p) => p,
        BuildStep::Finished(_) => panic!("expected an artifact check"),
    };
    let probe = ArtifactProbe {
        exists: true,
        hash: Some("00112233445566ff".to_string()),
        size: Some(2048),
    };
    let rep = r.conclude(pending, probe, 41, 101);
    assert_eq!(rep.info.build_status, BuildStatus::Success);
    assert_eq!(rep.info.build_status.marker().as_deref(), Some("SUCCESS"));
    assert_eq!(rep.info.component_hash.as_deref(), Some("00112233445566ff"));
    assert_eq!(rep.info.component_size, Some(2048));
    assert!(rep.info.error_message.is_none());
    assert_eq!(rep.info.build_duration, Some(41));
    assert_eq!(rep.component_path.as_deref(), Some("/nix/store/abc-foo/lib/foo.wasm"));
    assert!(rep.result.is_ok());
    assert_eq!(
        rep.log,
        "=== Build Log for foo ===\nDate: 20240307_090502\nBuilder: nix\nDuration: 41 seconds\n\n=== STDOUT ===\n/nix/store/abc-foo\n\n=== STDERR ===\nnote\n\n=== Exit Status: exit status: 0 ===\n\n=== Component Hash: 00112233445566ff ===\n\n=== Component Size: 2048 bytes ===\n"
    );
}

#[test]
fn success_without_manifest_leaves_manifest_alone() {
    let r = run(false);
    let pending = match r.after_tool(exited(true, "/out", ""), 1, 5) {
        BuildStep::CheckArtifact(p) => p,
        BuildStep::Finished(_) => panic!("expected an artifact check"),
    };
    let rep = r.conclude(pending, ArtifactProbe { exists: true, hash: Some("ab".to_string()), size: None }, 1, 5);
    assert_eq!(rep.info.build_status, BuildStatus::Success);
    assert!(rep.component_path.is_none());
    assert!(rep.info.component_hash.is_none());
    assert!(rep.info.component_size.is_none());
}

#[test]
fn locks_reject_a_second_build_of_the_same_actor() {
    let mut locks = BuildLocks::new();
    assert!(locks.try_acquire("/reg/foo"));
    assert!(!locks.try_acquire("/reg/foo"));
    assert!(locks.try_acquire("/reg/bar"));
    assert!(locks.is_held("/reg/foo"));
    locks.release("/reg/foo");
    assert!(!locks.is_held("/reg/foo"));
    assert!(locks.is_held("/reg/bar"));
    assert!(locks.try_acquire("/reg/foo"));
}

#[test]
fn finishing_a_run_releases_its_lock() {
    let mut locks = BuildLocks::new();
    let r = run(true);
    assert!(locks.try_acquire(&r.actor_path));
    r.finish(&mut locks);
    assert!(!locks.is_held("/reg/foo"));
}

#[test]
fn build_options_arguments() {
    let none = BuildOptions { release: false, clean: false, force: false, verbose: false };
    assert_eq!(none.arguments("/reg/foo"), vec!["build", "/reg/foo"]);
    let all = BuildOptions { release: true, clean: true, force: true, verbose: true };
    assert_eq!(
        all.arguments("/reg/foo"),
        vec!["build", "--release", "--clean", "--force", "--verbose", "/reg/foo"]
    );
    let some = BuildOptions { release: true, clean: false, force: false, verbose: true };
    assert_eq!(some.arguments("p"), vec!["build", "--release", "--verbose", "p"]);
}
