//! Supervisor of a pod's running state: it follows the lifecycle status of the
//! pod's containers and decides when the pod as a whole has ended.

pub mod aggregator;
pub mod laws;
pub mod phase;
pub mod reporter;
pub mod run;
pub mod status;
pub mod supervisor;
pub mod transition;
