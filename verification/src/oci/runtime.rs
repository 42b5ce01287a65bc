//! The OCI runtime state of a container.

use std::collections::HashMap;
use vstd::prelude::*;

verus! {

/// The runtime state of a container, as the OCI runtime specification reports it.
#[derive(Debug, Clone)]
pub struct ContainerState {
    pub oci_version: String,
    pub id: String,
    pub status: ContainerStatus,
    pub pid: i32,
    pub bundle: String,
    pub annotations: Option<HashMap<String, String>>,
}

/// The lifecycle status of a container.
#[derive(Debug, Clone, Copy, PartialEq, Eq)]
pub enum ContainerStatus {
    Creating,
    Created,
    Running,
    Stopped,
}

} // verus!
