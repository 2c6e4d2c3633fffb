//! Keeps pod labels in line with the topology labels of the node that a pod is
//! scheduled onto.
//!
//! Two paths compute the same label patch from the same inputs: a controller
//! that reconciles every pod it observes, and an admission hook that patches a
//! pod before it is persisted. This library holds what both decide; the calls to
//! the cluster are the caller's, who carries out each step that the library
//! names and hands back the outcome.
//!
//! - [`labels`], [`object`], [`topology`]: the data that the decisions read.
//! - [`diff`]: the label patch, and what holds of it.
//! - [`json`]: the patch as a JSON Patch document.
//! - [`controller`]: which controllers to launch, and the reconciliation of a pod.
//! - [`webhook`]: the admission of a pod.

pub mod controller;
pub mod diff;
pub mod json;
pub mod labels;
pub mod object;
pub mod topology;
pub mod webhook;
