//! Process isolation daemon: configuration models, OCI runtime types and
//! the planning logic for user, mount, UTS and network namespaces.

pub mod common;
pub mod oci;
pub mod process;
