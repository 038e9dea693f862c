//! The manageable capabilities: installer leaves, the cluster lifecycle, the
//! pipeline-service lifecycles and the port-forward tunnel.

pub mod curl;
pub mod docker;
pub mod git;
pub mod k3d;
pub mod k3d_service;
pub mod k9s;
pub mod kf_service;
pub mod kfctl;
pub mod kfp;
pub mod kfp_service;
pub mod kubectl;
pub mod model;
pub mod pip3;
pub mod port_forward;
