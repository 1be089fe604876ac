//! Build status and the durable record of one build attempt.

use vstd::prelude::*;

verus! {

/// Where an actor stands in its build lifecycle.
#[derive(Clone, Copy, Debug, PartialEq, Eq, Structural)]
pub enum BuildStatus {
    NotBuilt,
    Building,
    Success,
    Failed,
}

/// The status token written to an actor's status file; `NotBuilt` has none.
pub open spec fn marker_of(s: BuildStatus) -> Option<Seq<char>> {
    match s {
        BuildStatus::NotBuilt => None,
        BuildStatus::Building => Some("BUILDING"@),
        BuildStatus::Success => Some("SUCCESS"@),
        BuildStatus::Failed => Some("FAILED"@),
    }
}

/// The status that a status-file token stands for.
pub open spec fn status_of_marker(t: Seq<char>) -> Option<BuildStatus> {
    if t == "BUILDING"@ {
        Some(BuildStatus::Building)
    } else if t == "SUCCESS"@ {
        Some(BuildStatus::Success)
    } else if t == "FAILED"@ {
        Some(BuildStatus::Failed)
    } else {
        None
    }
}

/// The human-readable name of a status.
pub open spec fn label_of(s: BuildStatus) -> Seq<char> {
    match s {
        BuildStatus::NotBuilt => "Not Built"@,
        BuildStatus::Building => "Building"@,
        BuildStatus::Success => "Success"@,
        BuildStatus::Failed => "Failed"@,
    }
}

impl BuildStatus {
    /// The human-readable name: "Not Built", "Building", "Success" or "Failed".
    pub fn label(&self) -> (r: String)
        ensures
            r@ == label_of(*self),
    {
        match self {
            BuildStatus::NotBuilt => String::from_str("Not Built"),
            BuildStatus::Building => String::from_str("Building"),
            BuildStatus::Success => String::from_str("Success"),
            BuildStatus::Failed => String::from_str("Failed"),
        }
    }

    /// The token for the status file: `BUILDING`, `SUCCESS` or `FAILED`.
    pub fn marker(&self) -> (r: Option<String>)
        ensures
            match r {
                Some(t) => marker_of(*self) == Some(t@),
                None => marker_of(*self) is None,
            },
    {
        match self {
            BuildStatus::NotBuilt => None,
            BuildStatus::Building => Some(String::from_str("BUILDING")),
            BuildStatus::Success => Some(String::from_str("SUCCESS")),
            BuildStatus::Failed => Some(String::from_str("FAILED")),
        }
    }

    /// Reads a status-file token; any other text stands for no status.
    pub fn from_marker(t: &str) -> (r: Option<BuildStatus>)
        ensures
            r == status_of_marker(t@),
    {
        let s = String::from_str(t);
        if s == String::from_str("BUILDING") {
            Some(BuildStatus::Building)
        } else if s == String::from_str("SUCCESS") {
            Some(BuildStatus::Success)
        } else if s == String::from_str("FAILED") {
            Some(BuildStatus::Failed)
        } else {
            None
        }
    }
}

/// Writing a status token and reading it back gives the same status.
pub proof fn lemma_marker_round_trip(s: BuildStatus)
    ensures
        match marker_of(s) {
            Some(t) => status_of_marker(t) == Some(s),
            None => s == BuildStatus::NotBuilt,
        },
{
    reveal_strlit("BUILDING");
    reveal_strlit("SUCCESS");
    reveal_strlit("FAILED");
    if s == BuildStatus::Success {
        assert("SUCCESS"@ != "BUILDING"@) by {
            assert("SUCCESS"@[0] != "BUILDING"@[0]);
        }
    }
    if s == BuildStatus::Failed {
        assert("FAILED"@ != "BUILDING"@) by {
            assert("FAILED"@[0] != "BUILDING"@[0]);
        }
        assert("FAILED"@ != "SUCCESS"@) by {
            assert("FAILED"@[0] != "SUCCESS"@[0]);
        }
    }
}

/// The record of the last build attempt of an actor.
#[derive(Clone, Debug)]
pub struct BuildInfo {
    /// Seconds since the Unix epoch at which the attempt ended.
    pub last_build_time: Option<u64>,
    pub build_status: BuildStatus,
    /// Change-detection digest of the artifact.
    pub component_hash: Option<String>,
    /// Path of the attempt's log file.
    pub build_log: Option<String>,
    /// Whole seconds the attempt took.
    pub build_duration: Option<u64>,
    /// Artifact size in bytes.
    pub component_size: Option<u64>,
    pub error_message: Option<String>,
}

impl BuildInfo {
    /// Digest and size only after a success; an error message only after a failure.
    pub open spec fn wf(&self) -> bool {
        &&& (self.component_hash is Some ==> self.build_status == BuildStatus::Success)
        &&& (self.component_size is Some ==> self.build_status == BuildStatus::Success)
        &&& (self.error_message is Some ==> self.build_status == BuildStatus::Failed)
    }

    /// A record that carries only a status.
    pub open spec fn bare(s: BuildStatus) -> BuildInfo {
        BuildInfo {
            last_build_time: None,
            build_status: s,
            component_hash: None,
            build_log: None,
            build_duration: None,
            component_size: None,
            error_message: None,
        }
    }

    /// A record that carries only `status`.
    pub fn with_status(status: BuildStatus) -> (r: BuildInfo)
        ensures
            r == BuildInfo::bare(status),
            r.wf(),
    {
        BuildInfo {
            last_build_time: None,
            build_status: status,
            component_hash: None,
            build_log: None,
            build_duration: None,
            component_size: None,
            error_message: None,
        }
    }
}

impl Default for BuildInfo {
    fn default() -> (r: BuildInfo)
        ensures
            r == BuildInfo::bare(BuildStatus::NotBuilt),
    {
        BuildInfo::with_status(BuildStatus::NotBuilt)
    }
}

} // verus!
