//! Verified core of a Kubernetes controller for BinaryLane servers: the
//! checks and decisions of node provisioning and of cloud-init templating.
pub mod string_map;
pub mod crd;
pub mod template;
pub mod user_data;
pub mod status;
pub mod text;
pub mod resolve;
pub mod provision;
