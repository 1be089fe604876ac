//! The build lifecycle: `NotBuilt -> Building -> {Success, Failed}`.
//!
//! A build is driven in steps. [`BuildRun`] says what to run; the caller runs
//! the build tool and hands back a [`ToolOutcome`]; the run either concludes at
//! once or names the artifact to look for; the caller looks and hands back an
//! [`ArtifactProbe`]. Each conclusion is a [`BuildReport`]: the record, the log
//! text and the status token to persist, and the result to return.

use vstd::prelude::*;
use crate::error::RegistryError;
use crate::status::{BuildInfo, BuildStatus};
use crate::text::{
    chars_of, decimal, first_error_line, first_error_line_of, fixed_digits, push_char, push_decimal,
    push_fixed_digits, push_str, trim_range, trimmed,
};

verus! {

/// A local calendar date and wall-clock time, to the second.
#[derive(Clone, Copy, Debug, PartialEq, Eq, Structural)]
pub struct Timestamp {
    pub year: u32,
    pub month: u32,
    pub day: u32,
    pub hour: u32,
    pub minute: u32,
    pub second: u32,
}

/// `YYYYMMDD_HHMMSS`, each field zero-padded to its width.
pub open spec fn compact_of(t: Timestamp) -> Seq<char> {
    fixed_digits(t.year as nat, 10, 4) + fixed_digits(t.month as nat, 10, 2) + fixed_digits(
        t.day as nat,
        10,
        2,
    ) + seq!['_'] + fixed_digits(t.hour as nat, 10, 2) + fixed_digits(t.minute as nat, 10, 2)
        + fixed_digits(t.second as nat, 10, 2)
}

impl Timestamp {
    /// The timestamp as `YYYYMMDD_HHMMSS` (each field zero-padded; a year past 9999
    /// keeps its last four digits).
    pub fn compact(&self) -> (r: String)
        ensures
            r@ == compact_of(*self),
    {
        let mut s = String::new();
        push_fixed_digits(&mut s, self.year as u64, 10, 4);
        push_fixed_digits(&mut s, self.month as u64, 10, 2);
        push_fixed_digits(&mut s, self.day as u64, 10, 2);
        push_char(&mut s, '_');
        push_fixed_digits(&mut s, self.hour as u64, 10, 2);
        push_fixed_digits(&mut s, self.minute as u64, 10, 2);
        push_fixed_digits(&mut s, self.second as u64, 10, 2);
        assert(s@ =~= compact_of(*self));
        s
    }
}

/// The keys (actor paths) whose builds are running.
pub struct BuildLocks {
    active: Vec<String>,
}

impl BuildLocks {
    pub closed spec fn view(&self) -> Set<Seq<char>> {
        Set::new(|k: Seq<char>| exists|i: int| 0 <= i < self.active@.len() && self.active@[i]@ == k)
    }

    /// No build is running.
    pub fn new() -> (r: BuildLocks)
        ensures
            r@ == Set::<Seq<char>>::empty(),
    {
        let r = BuildLocks { active: Vec::new() };
        assert(r@ =~= Set::<Seq<char>>::empty());
        r
    }

    /// Whether a build under `key` is running.
    pub fn is_held(&self, key: &str) -> (r: bool)
        ensures
            r == self@.contains(key@),
    {
        let k = String::from_str(key);
        let mut i: usize = 0;
        while i < self.active.len()
            invariant
                i <= self.active@.len(),
                k@ == key@,
                forall|j: int| 0 <= j < i ==> self.active@[j]@ != key@,
            decreases self.active@.len() - i,
        {
            if self.active[i] == k {
                return true;
            }
            i = i + 1;
        }
        false
    }

    /// Takes the lock under `key` where no build holds it; says whether it did.
    pub fn try_acquire(&mut self, key: &str) -> (r: bool)
        ensures
            r == !old(self)@.contains(key@),
            final(self)@ == old(self)@.insert(key@),
    {
        if self.is_held(key) {
            assert(self@.insert(key@) =~= self@);
            return false;
        }
        let ghost before = self@;
        self.active.push(String::from_str(key));
        assert forall|k: Seq<char>| #[trigger] self@.contains(k) == before.insert(key@).contains(k) by {
            if before.contains(k) {
                let i = choose|i: int| 0 <= i < old(self).active@.len() && old(self).active@[i]@ == k;
                assert(self.active@[i] == old(self).active@[i]);
            }
            if k == key@ {
                assert(self.active@[self.active@.len() - 1]@ == key@);
            }
            if self@.contains(k) {
                let i = choose|i: int| 0 <= i < self.active@.len() && self.active@[i]@ == k;
                if i < old(self).active@.len() {
                    assert(self.active@[i] == old(self).active@[i]);
                }
            }
        }
        assert(self@ =~= before.insert(key@));
        true
    }

    /// Gives up the lock under `key`.
    pub fn release(&mut self, key: &str)
        ensures
            final(self)@ == old(self)@.remove(key@),
    {
        let k = String::from_str(key);
        let mut kept: Vec<String> = Vec::new();
        let mut i: usize = 0;
        while i < self.active.len()
            invariant
                i <= self.active@.len(),
                k@ == key@,
                self.active == old(self).active,
                forall|j: int| 0 <= j < kept@.len() ==> kept@[j]@ != key@,
                forall|j: int|
                    0 <= j < kept@.len() ==> exists|m: int|
                        0 <= m < i && #[trigger] kept@[j]@ == self.active@[m]@,
                forall|m: int|
                    0 <= m < i && self.active@[m]@ != key@ ==> exists|j: int|
                        0 <= j < kept@.len() && #[trigger] kept@[j]@ == self.active@[m]@,
            decreases self.active@.len() - i,
        {
            if !(self.active[i] == k) {
                let ghost before = kept@;
                kept.push(self.active[i].clone());
                proof {
                    assert(kept@[before.len() as int]@ == self.active@[i as int]@);
                    assert forall|j: int| 0 <= j < kept@.len() implies exists|m: int|
                        0 <= m < i + 1 && #[trigger] kept@[j]@ == self.active@[m]@ by {
                        if j < before.len() {
                            assert(kept@[j] == before[j]);
                        }
                    }
                    assert forall|m: int|
                        0 <= m < i + 1 && self.active@[m]@ != key@ implies exists|j: int|
                        0 <= j < kept@.len() && #[trigger] kept@[j]@ == self.active@[m]@ by {
                        if m < i {
                            let j = choose|j: int|
                                0 <= j < before.len() && #[trigger] before[j]@ == self.active@[m]@;
                            assert(kept@[j] == before[j]);
                        } else {
                            assert(kept@[before.len() as int]@ == self.active@[m]@);
                        }
                    }
                }
            }
            i = i + 1;
        }
        let ghost before = self@;
        self.active = kept;
        assert forall|x: Seq<char>| #[trigger] self@.contains(x) == before.remove(key@).contains(x) by {
            if self@.contains(x) {
                let j = choose|j: int| 0 <= j < self.active@.len() && self.active@[j]@ == x;
                assert(kept@[j]@ == x);
            }
            if before.remove(key@).contains(x) {
                let m = choose|m: int| 0 <= m < old(self).active@.len() && old(self).active@[m]@ == x;
                let j = choose|j: int| 0 <= j < kept@.len() && #[trigger] kept@[j]@ == old(self).active@[m]@;
                assert(self.active@[j]@ == x);
            }
        }
        assert(self@ =~= before.remove(key@));
    }
}

/// The view of an optional string.
pub open spec fn opt_view(o: Option<String>) -> Option<Seq<char>> {
    match o {
        Some(s) => Some(s@),
        None => None,
    }
}

/// The directory under an actor that holds its build metadata.
pub open spec fn metadata_dir_of(actor_path: Seq<char>) -> Seq<char> {
    actor_path + "/.build_info"@
}

/// The log file of the attempt started at `t`.
pub open spec fn log_path_of(actor_path: Seq<char>, t: Timestamp) -> Seq<char> {
    metadata_dir_of(actor_path) + "/build_"@ + compact_of(t) + ".log"@
}

/// Where the build tool's output path says the artifact of `name` lies.
pub open spec fn artifact_path_of(output: Seq<char>, name: Seq<char>) -> Seq<char> {
    output + "/lib/"@ + name + ".wasm"@
}

/// The opening lines of every build log.
pub open spec fn log_header(name: Seq<char>, t: Timestamp, duration: u64) -> Seq<char> {
    "=== Build Log for "@ + name + " ===\nDate: "@ + compact_of(t) + "\nBuilder: nix\nDuration: "@
        + decimal(duration as nat) + " seconds\n\n"@
}

/// The error message recorded when the build tool could not be started.
pub open spec fn spawn_error_of(message: Seq<char>) -> Seq<char> {
    "Failed to execute nix build command: "@ + message
}

/// The build tool's command line, as the log records it.
pub open spec fn command_line() -> Seq<char> {
    "/nix/var/nix/profiles/default/bin/nix build --no-link --print-out-paths"@
}

/// The log of an attempt whose tool could not be started: the command that was
/// tried and why it failed.
pub open spec fn spawn_log(name: Seq<char>, t: Timestamp, duration: u64, message: Seq<char>) -> Seq<
    char,
> {
    log_header(name, t, duration) + "Command: "@ + command_line() + "\n"@ + "ERROR: "@
        + spawn_error_of(message) + "\n"@
}

/// The log of an attempt whose tool ran: its output, its exit status, and the
/// artifact's digest and size where they are known.
pub open spec fn run_log(
    name: Seq<char>,
    t: Timestamp,
    duration: u64,
    stdout: Seq<char>,
    stderr: Seq<char>,
    exit_status: Seq<char>,
    hash: Option<Seq<char>>,
    size: Option<u64>,
) -> Seq<char> {
    log_header(name, t, duration) + "=== STDOUT ===\n"@ + stdout + "\n=== STDERR ===\n"@ + stderr
        + "\n=== Exit Status: "@ + exit_status + " ===\n"@ + match hash {
        Some(h) => "\n=== Component Hash: "@ + h + " ===\n"@,
        None => Seq::empty(),
    } + match size {
        Some(n) => "\n=== Component Size: "@ + decimal(n as nat) + " bytes ===\n"@,
        None => Seq::empty(),
    }
}

/// How the build tool is run.
pub struct ToolInvocation {
    pub program: String,
    pub args: Vec<String>,
    pub working_dir: String,
}

/// What became of the build tool.
pub enum ToolOutcome {
    /// It could not be started.
    SpawnFailed { message: String },
    /// It ran to completion; `exit_status` is its exit status as text.
    Exited { success: bool, exit_status: String, stdout: String, stderr: String },
}

/// What the caller found at the artifact path.
pub struct ArtifactProbe {
    pub exists: bool,
    pub hash: Option<String>,
    pub size: Option<u64>,
}

/// A tool run that succeeded and still waits for its artifact to be found.
pub struct PendingArtifact {
    pub path: String,
    pub exit_status: String,
    pub stdout: String,
    pub stderr: String,
}

/// The outcome of one build attempt, ready to persist: `info` as the structured
/// record, `log` as the attempt's log file, the status token of `info.build_status`,
/// and `component_path` as the manifest's new artifact path where it is to change.
pub struct BuildReport {
    pub info: BuildInfo,
    pub log: String,
    pub component_path: Option<String>,
    pub result: Result<(), RegistryError>,
}

/// The next thing to do after the build tool has run.
pub enum BuildStep {
    Finished(BuildReport),
    CheckArtifact(PendingArtifact),
}

/// One build attempt of one actor, started at `started`.
pub struct BuildRun {
    pub actor_name: String,
    pub actor_path: String,
    pub started: Timestamp,
    /// Whether the actor had a manifest when the attempt began.
    pub has_manifest: bool,
}

impl BuildRun {
    pub open spec fn log_path_spec(&self) -> Seq<char> {
        log_path_of(self.actor_path@, self.started)
    }

    /// The record of a finished attempt: its status, times, log path and
    /// diagnostics.
    pub open spec fn records(
        &self,
        info: BuildInfo,
        status: BuildStatus,
        now: u64,
        duration: u64,
        hash: Option<Seq<char>>,
        size: Option<u64>,
        error: Option<Seq<char>>,
    ) -> bool {
        &&& info.build_status == status
        &&& info.last_build_time == Some(now)
        &&& info.build_duration == Some(duration)
        &&& opt_view(info.build_log) == Some(self.log_path_spec())
        &&& opt_view(info.component_hash) == hash
        &&& info.component_size == size
        &&& opt_view(info.error_message) == error
    }

    /// The directory that holds the actor's build metadata.
    pub fn metadata_dir(&self) -> (r: String)
        ensures
            r@ == metadata_dir_of(self.actor_path@),
    {
        let mut s = self.actor_path.clone();
        push_str(&mut s, "/.build_info");
        s
    }

    /// The status file, which holds one token: `BUILDING`, `SUCCESS` or `FAILED`.
    pub fn status_file(&self) -> (r: String)
        ensures
            r@ == metadata_dir_of(self.actor_path@) + "/status"@,
    {
        let mut s = self.metadata_dir();
        push_str(&mut s, "/status");
        s
    }

    /// The structured record of the last attempt.
    pub fn record_file(&self) -> (r: String)
        ensures
            r@ == metadata_dir_of(self.actor_path@) + "/build_info.json"@,
    {
        let mut s = self.metadata_dir();
        push_str(&mut s, "/build_info.json");
        s
    }

    /// This attempt's log file, named by the second it started.
    pub fn log_path(&self) -> (r: String)
        ensures
            r@ == self.log_path_spec(),
    {
        let mut s = self.metadata_dir();
        push_str(&mut s, "/build_");
        let c = self.started.compact();
        push_str(&mut s, c.as_str());
        push_str(&mut s, ".log");
        assert(s@ =~= self.log_path_spec());
        s
    }

    /// The build tool, run in the actor's directory: a build that makes no link
    /// and prints its output path.
    pub fn invocation(&self) -> (r: ToolInvocation)
        ensures
            r.program@ == "/nix/var/nix/profiles/default/bin/nix"@,
            r.args@.len() == 3,
            r.args@[0]@ == "build"@,
            r.args@[1]@ == "--no-link"@,
            r.args@[2]@ == "--print-out-paths"@,
            r.working_dir@ == self.actor_path@,
    {
        let mut args: Vec<String> = Vec::new();
        args.push(String::from_str("build"));
        args.push(String::from_str("--no-link"));
        args.push(String::from_str("--print-out-paths"));
        ToolInvocation {
            program: String::from_str("/nix/var/nix/profiles/default/bin/nix"),
            args,
            working_dir: self.actor_path.clone(),
        }
    }

    fn header(&self, duration: u64) -> (r: String)
        ensures
            r@ == log_header(self.actor_name@, self.started, duration),
    {
        let mut s = String::from_str("=== Build Log for ");
        push_str(&mut s, self.actor_name.as_str());
        push_str(&mut s, " ===\nDate: ");
        let c = self.started.compact();
        push_str(&mut s, c.as_str());
        push_str(&mut s, "\nBuilder: nix\nDuration: ");
        push_decimal(&mut s, duration);
        push_str(&mut s, " seconds\n\n");
        assert(s@ =~= log_header(self.actor_name@, self.started, duration));
        s
    }

    fn tool_log(
        &self,
        duration: u64,
        stdout: &str,
        stderr: &str,
        exit_status: &str,
        hash: &Option<String>,
        size: Option<u64>,
    ) -> (r: String)
        ensures
            r@ == run_log(
                self.actor_name@,
                self.started,
                duration,
                stdout@,
                stderr@,
                exit_status@,
                opt_view(*hash),
                size,
            ),
    {
        let mut s = self.header(duration);
        push_str(&mut s, "=== STDOUT ===\n");
        push_str(&mut s, stdout);
        push_str(&mut s, "\n=== STDERR ===\n");
        push_str(&mut s, stderr);
        push_str(&mut s, "\n=== Exit Status: ");
        push_str(&mut s, exit_status);
        push_str(&mut s, " ===\n");
        match hash {
            Some(h) => {
                push_str(&mut s, "\n=== Component Hash: ");
                push_str(&mut s, h.as_str());
                push_str(&mut s, " ===\n");
            },
            None => {},
        }
        match size {
            Some(n) => {
                push_str(&mut s, "\n=== Component Size: ");
                push_decimal(&mut s, n);
                push_str(&mut s, " bytes ===\n");
            },
            None => {},
        }
        assert(s@ =~= run_log(
            self.actor_name@,
            self.started,
            duration,
            stdout@,
            stderr@,
            exit_status@,
            opt_view(*hash),
            size,
        ));
        s
    }
}

impl BuildRun {
    /// Decides what follows the build tool's run.
    ///
    /// A tool that could not be started, or that exited with a failure status, or
    /// that printed no output path ends the attempt as `Failed`; otherwise the
    /// artifact is looked for at `<output path>/lib/<actor name>.wasm`.
    /// `duration` is the whole seconds since the start, `now` the seconds since
    /// the Unix epoch.
    pub fn after_tool(&self, outcome: ToolOutcome, duration: u64, now: u64) -> (r: BuildStep)
        ensures
            match outcome {
                ToolOutcome::SpawnFailed { message } => match r {
                    BuildStep::Finished(rep) => {
                        &&& self.records(
                            rep.info,
                            BuildStatus::Failed,
                            now,
                            duration,
                            None,
                            None,
                            Some(spawn_error_of(message@)),
                        )
                        &&& rep.log@ == spawn_log(self.actor_name@, self.started, duration, message@)
                        &&& rep.component_path is None
                        &&& rep.result matches Err(RegistryError::ToolInvocationError { message: m })
                            && m@ == message@
                    },
                    _ => false,
                },
                ToolOutcome::Exited { success, exit_status, stdout, stderr } => {
                    let out = trimmed(stdout@);
                    if !success || out.len() == 0 {
                        match r {
                            BuildStep::Finished(rep) => {
                                &&& self.records(
                                    rep.info,
                                    BuildStatus::Failed,
                                    now,
                                    duration,
                                    None,
                                    None,
                                    first_error_line(stderr@),
                                )
                                &&& rep.log@ == run_log(
                                    self.actor_name@,
                                    self.started,
                                    duration,
                                    stdout@,
                                    stderr@,
                                    exit_status@,
                                    None,
                                    None,
                                )
                                &&& rep.component_path is None
                                &&& if !success {
                                    rep.result matches Err(
                                        RegistryError::BuildFailedError { exit_status: e, excerpt: x },
                                    ) && e@ == exit_status@ && opt_view(x) == first_error_line(
                                        stderr@,
                                    )
                                } else {
                                    rep.result matches Err(RegistryError::OutputResolutionError)
                                }
                            },
                            _ => false,
                        }
                    } else {
                        match r {
                            BuildStep::CheckArtifact(p) => {
                                &&& p.path@ == artifact_path_of(out, self.actor_name@)
                                &&& p.exit_status == exit_status
                                &&& p.stdout == stdout
                                &&& p.stderr == stderr
                            },
                            _ => false,
                        }
                    }
                },
            },
            match r {
                BuildStep::Finished(rep) => rep.info.build_status == BuildStatus::Failed
                    && rep.info.wf(),
                _ => true,
            },
    {
        match outcome {
            ToolOutcome::SpawnFailed { message } => {
                let mut log = self.header(duration);
                push_str(&mut log, "Command: ");
                push_str(&mut log, "/nix/var/nix/profiles/default/bin/nix build --no-link --print-out-paths");
                push_str(&mut log, "\n");
                push_str(&mut log, "ERROR: ");
                let mut error = String::from_str("Failed to execute nix build command: ");
                push_str(&mut error, message.as_str());
                push_str(&mut log, error.as_str());
                push_str(&mut log, "\n");
                assert(log@ =~= spawn_log(self.actor_name@, self.started, duration, message@));
                let info = BuildInfo {
                    last_build_time: Some(now),
                    build_status: BuildStatus::Failed,
                    component_hash: None,
                    build_log: Some(self.log_path()),
                    build_duration: Some(duration),
                    component_size: None,
                    error_message: Some(error),
                };
                BuildStep::Finished(
                    BuildReport {
                        info,
                        log,
                        component_path: None,
                        result: Err(RegistryError::ToolInvocationError { message }),
                    },
                )
            },
            ToolOutcome::Exited { success, exit_status, stdout, stderr } => {
                let v = chars_of(stdout.as_str());
                let out = trim_range(&v, 0, v.len());
                assert(v@.subrange(0, v@.len() as int) =~= stdout@);
                if success && out.as_str().unicode_len() > 0 {
                    let mut path = out;
                    push_str(&mut path, "/lib/");
                    push_str(&mut path, self.actor_name.as_str());
                    push_str(&mut path, ".wasm");
                    assert(path@ =~= artifact_path_of(trimmed(stdout@), self.actor_name@));
                    return BuildStep::CheckArtifact(
                        PendingArtifact { path, exit_status, stdout, stderr },
                    );
                }
                let excerpt = first_error_line_of(stderr.as_str());
                let log = self.tool_log(
                    duration,
                    stdout.as_str(),
                    stderr.as_str(),
                    exit_status.as_str(),
                    &None,
                    None,
                );
                let info = BuildInfo {
                    last_build_time: Some(now),
                    build_status: BuildStatus::Failed,
                    component_hash: None,
                    build_log: Some(self.log_path()),
                    build_duration: Some(duration),
                    component_size: None,
                    error_message: excerpt.clone(),
                };
                let result = if !success {
                    Err(RegistryError::BuildFailedError { exit_status, excerpt })
                } else {
                    Err(RegistryError::OutputResolutionError)
                };
                BuildStep::Finished(BuildReport { info, log, component_path: None, result })
            },
        }
    }

    /// Concludes an attempt whose tool succeeded, once the artifact has been
    /// looked for.
    ///
    /// A missing artifact ends it as `Failed`. Otherwise it ends as `Success`,
    /// with the digest and size where both are known, and with the artifact path
    /// as the manifest's new artifact path where the actor has a manifest.
    pub fn conclude(&self, pending: PendingArtifact, probe: ArtifactProbe, duration: u64, now: u64) -> (r:
        BuildReport)
        ensures
            ({
                let known = probe.hash is Some && probe.size is Some;
                let hash = if known { opt_view(probe.hash) } else { None };
                let size = if known { probe.size } else { None };
                if !probe.exists {
                    &&& self.records(
                        r.info,
                        BuildStatus::Failed,
                        now,
                        duration,
                        None,
                        None,
                        first_error_line(pending.stderr@),
                    )
                    &&& r.log@ == run_log(
                        self.actor_name@,
                        self.started,
                        duration,
                        pending.stdout@,
                        pending.stderr@,
                        pending.exit_status@,
                        None,
                        None,
                    )
                    &&& r.component_path is None
                    &&& r.result matches Err(RegistryError::ArtifactNotFoundError { path: p }) && p@
                        == pending.path@
                } else {
                    &&& self.records(r.info, BuildStatus::Success, now, duration, hash, size, None)
                    &&& r.log@ == run_log(
                        self.actor_name@,
                        self.started,
                        duration,
                        pending.stdout@,
                        pending.stderr@,
                        pending.exit_status@,
                        hash,
                        size,
                    )
                    &&& opt_view(r.component_path) == (if self.has_manifest {
                        Some(pending.path@)
                    } else {
                        None
                    })
                    &&& r.result is Ok
                }
            }),
            r.info.build_status == BuildStatus::Success || r.info.build_status
                == BuildStatus::Failed,
            r.info.wf(),
    {
        let PendingArtifact { path, exit_status, stdout, stderr } = pending;
        if !probe.exists {
            let log = self.tool_log(
                duration,
                stdout.as_str(),
                stderr.as_str(),
                exit_status.as_str(),
                &None,
                None,
            );
            let info = BuildInfo {
                last_build_time: Some(now),
                build_status: BuildStatus::Failed,
                component_hash: None,
                build_log: Some(self.log_path()),
                build_duration: Some(duration),
                component_size: None,
                error_message: first_error_line_of(stderr.as_str()),
            };
            return BuildReport {
                info,
                log,
                component_path: None,
                result: Err(RegistryError::ArtifactNotFoundError { path }),
            };
        }
        let ArtifactProbe { exists, hash, size } = probe;
        let (hash, size) = match (hash, size) {
            (Some(h), Some(n)) => (Some(h), Some(n)),
            _ => (None, None),
        };
        let log = self.tool_log(
            duration,
            stdout.as_str(),
            stderr.as_str(),
            exit_status.as_str(),
            &hash,
            size,
        );
        let info = BuildInfo {
            last_build_time: Some(now),
            build_status: BuildStatus::Success,
            component_hash: hash,
            build_log: Some(self.log_path()),
            build_duration: Some(duration),
            component_size: size,
            error_message: None,
        };
        let component_path = if self.has_manifest {
            Some(path)
        } else {
            None
        };
        BuildReport { info, log, component_path, result: Ok(()) }
    }
}

impl BuildRun {
    /// Ends the attempt: the actor directory is no longer locked.
    pub fn finish(&self, locks: &mut BuildLocks)
        ensures
            final(locks)@ == old(locks)@.remove(self.actor_path@),
    {
        locks.release(self.actor_path.as_str());
    }
}

/// The options of a `theater build` command line.
#[derive(Clone, Copy, Debug, PartialEq, Eq, Structural)]
pub struct BuildOptions {
    pub release: bool,
    pub clean: bool,
    pub force: bool,
    pub verbose: bool,
}

/// `flag` where `on`, nothing otherwise.
pub open spec fn flag_if(on: bool, flag: Seq<char>) -> Seq<Seq<char>> {
    if on {
        seq![flag]
    } else {
        Seq::empty()
    }
}

/// The arguments of `theater build` for `o` on the actor at `path`.
pub open spec fn build_args_of(o: BuildOptions, path: Seq<char>) -> Seq<Seq<char>> {
    seq!["build"@] + flag_if(o.release, "--release"@) + flag_if(o.clean, "--clean"@) + flag_if(
        o.force,
        "--force"@,
    ) + flag_if(o.verbose, "--verbose"@) + seq![path]
}

impl BuildOptions {
    /// The arguments of `theater build`: `build`, then `--release`, `--clean`,
    /// `--force` and `--verbose` for the options that are on, then the actor path.
    pub fn arguments(&self, actor_path: &str) -> (r: Vec<String>)
        ensures
            r@.map_values(|a: String| a@) == build_args_of(*self, actor_path@),
    {
        let mut v: Vec<String> = Vec::new();
        v.push(String::from_str("build"));
        let ghost a0 = v@.map_values(|a: String| a@);
        assert(a0 =~= seq!["build"@]);
        if self.release {
            v.push(String::from_str("--release"));
        }
        let ghost a1 = v@.map_values(|a: String| a@);
        assert(a1 =~= a0 + flag_if(self.release, "--release"@));
        if self.clean {
            v.push(String::from_str("--clean"));
        }
        let ghost a2 = v@.map_values(|a: String| a@);
        assert(a2 =~= a1 + flag_if(self.clean, "--clean"@));
        if self.force {
            v.push(String::from_str("--force"));
        }
        let ghost a3 = v@.map_values(|a: String| a@);
        assert(a3 =~= a2 + flag_if(self.force, "--force"@));
        if self.verbose {
            v.push(String::from_str("--verbose"));
        }
        let ghost a4 = v@.map_values(|a: String| a@);
        assert(a4 =~= a3 + flag_if(self.verbose, "--verbose"@));
        v.push(String::from_str(actor_path));
        assert(v@.map_values(|a: String| a@) =~= a4 + seq![actor_path@]);
        v
    }
}

} // verus!
