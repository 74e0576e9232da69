//! Engine for contesting scarce remote slots ("targets") with several
//! concurrent workers: a pure response classifier, a registry of per-target
//! states with atomic check-and-set transitions, and the worker loop and
//! round dispatcher that drive claim attempts against a transport capability.

pub mod crypto;
pub mod engine;
pub mod error;
pub mod model;
pub mod outcome;
pub mod registry;
