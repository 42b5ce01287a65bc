//! The daemon's own configuration records and container state.

use std::collections::HashMap;
use vstd::prelude::*;

verus! {

/// The configuration of one isolated process, as read from `process.json`.
#[derive(Debug, Clone)]
pub struct ProcessConfig {
    pub id: String,
    pub name: String,
    pub pid: u8,
    pub context_dir: String,
    pub image: Image,
    pub job: Job,
    pub env: HashMap<String, String>,
}

/// The image a process runs from.
#[derive(Debug, Clone)]
pub struct Image {
    pub id: String,
    pub name: String,
    pub context_temp_dir: String,
    pub imgpath: String,
    pub tag: String,
    pub created: String,
}

/// The job a process runs: a name and its command line.
#[derive(Debug, Clone)]
pub struct Job {
    pub name: String,
    pub command: Vec<String>,
}

/// The ports that a process publishes.
#[derive(Debug, Clone)]
pub struct Network {
    pub ports: Vec<Port>,
}

/// One published port: the host side and the process side.
#[derive(Debug, Clone, Copy, PartialEq, Eq)]
pub struct Port {
    pub host_port: u16,
    pub proc_port: u16,
}

/// The lifecycle status of a container; a stopped one keeps its exit code.
#[derive(Debug, Clone, Copy, PartialEq, Eq)]
pub enum ContainerStatus {
    Creating,
    Created,
    Running,
    Stopped(i32),
}

/// The runtime state of a container.
pub struct ContainerState {
    pub oci_version: String,
    pub id: String,
    pub status: ContainerStatus,
    pub pid: u32,
    pub bundle: String,
    pub annotations: HashMap<String, String>,
}

/// The OCI specification header: its version and root filesystem.
pub struct OciSpec {
    pub oci_version: String,
    pub root: Option<OciRoot>,
}

/// The root filesystem of a container.
pub struct OciRoot {
    pub path: String,
    pub readonly: Option<bool>,
}

/// One mount of a container.
pub struct OciMount {
    pub destination: String,
    pub source: Option<String>,
    pub options: Option<LinuxMountOptions>,
}

/// The bind-mount options supported so far.
#[derive(Debug, Clone, Copy, PartialEq, Eq)]
pub enum LinuxMountOptions {
    Bind,
    Rbind,
    Ro,
    Rw,
    Noexec,
    Exec,
    Nosuid,
    Suid,
    Nodev,
    Dev,
    Private,
    Rprivate,
}

/// The text by which a status is shown: its name in lower case, whatever
/// exit code a stopped container has.
pub open spec fn status_text(status: ContainerStatus) -> Seq<char> {
    match status {
        ContainerStatus::Creating => "creating"@,
        ContainerStatus::Created => "created"@,
        ContainerStatus::Running => "running"@,
        ContainerStatus::Stopped(_) => "stopped"@,
    }
}

impl ContainerStatus {
    /// The text by which this status is shown.
    pub fn to_string(&self) -> (s: String)
        ensures
            s@ == status_text(*self),
    {
        match self {
            ContainerStatus::Creating => String::from_str("creating"),
            ContainerStatus::Created => String::from_str("created"),
            ContainerStatus::Running => String::from_str("running"),
            ContainerStatus::Stopped(_) => String::from_str("stopped"),
        }
    }
}

/// A status is shown by its name in lower case; a stopped container is shown
/// as `stopped` whatever its exit code.
pub proof fn lemma_status_text_values(status: ContainerStatus)
    ensures
        status == ContainerStatus::Creating ==> status_text(status) == "creating"@,
        status == ContainerStatus::Created ==> status_text(status) == "created"@,
        status == ContainerStatus::Running ==> status_text(status) == "running"@,
        status is Stopped ==> status_text(status) == "stopped"@,
{
}

/// The shown text tells statuses apart, except that it leaves out the exit
/// code of a stopped container.
pub proof fn lemma_status_text_distinguishes(a: ContainerStatus, b: ContainerStatus)
    ensures
        status_text(a) == status_text(b) <==> (a == b || (a is Stopped && b is Stopped)),
{
    reveal_strlit("creating");
    reveal_strlit("created");
    reveal_strlit("running");
    reveal_strlit("stopped");
    if status_text(a) == status_text(b) && !(a is Stopped && b is Stopped) {
        assert(status_text(a).len() == status_text(b).len());
        assert(status_text(a)[5] == status_text(b)[5]);
        assert(status_text(a)[0] == status_text(b)[0]);
    }
}

} // verus!
