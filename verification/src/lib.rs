//! Process-topology management for a parallel fuzzing campaign.
//!
//! Given an ordered set of CPU cores, this library decides how a cluster of
//! one broker process and one worker process per core is stood up, staggered,
//! wired together and torn down.  The decisions are verified; an unverified
//! driver performs the process-level actions (duplication, sleeping, stream
//! redirection, running transport endpoints) and reports each outcome back.

use vstd::prelude::*;

pub mod core_set;
pub mod error;
pub mod marker;
pub mod redirect;
pub mod role;
pub mod session;
pub mod centralized;

pub use core_set::{CoreSet, lemma_ordered_set_canonical};
pub use error::LaunchError;
pub use marker::{parse_core_marker, core_marker_value, lemma_marker_round_trip, CORE_MARKER_VAR};
pub use redirect::{resolve_redirection, child_stdio, StreamTargets, ChildStdio, DEBUG_OUTPUT_VAR, opt_str_view};
pub use role::{Role, StatePersistence, SpawnStrategy, EndpointSpec};
pub use session::{Launcher, LaunchSession, LaunchOutcome, WorkerRun, BrokerTask, SpawnStep, Phase, EnvReport, lemma_broker_shutdown_cascade, lemma_opt_out_waits_for_all, lemma_signaling_follows_broker, lemma_spawn_order};
pub use centralized::{CentralizedLauncher, CentralizedSession, CentralWorkerRun, CentralDuty, CentralBrokerTask, CentralPhase, lemma_two_tier_topology};

verus! {

/// The ordered-set invariant of a core list: strictly increasing identifiers.
pub open spec fn strictly_increasing(s: Seq<usize>) -> bool {
    forall|i: int, j: int| 0 <= i < j < s.len() ==> s[i] < s[j]
}

} // verus!
