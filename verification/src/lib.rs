//! Verified core logic of a container-deployment control plane.
use vstd::prelude::*;

pub mod text;
pub mod report;
pub mod sort;
pub mod command;
pub mod docker;
pub mod rollout;
pub mod connection;
pub mod listener;
pub mod gitops;
pub mod gitops_stack;
pub mod gitops_sync;
pub mod execute;
pub mod alerter;
pub mod auth;
pub mod stack_read;
pub mod compose;
pub mod stats;

verus! {

} // verus!
