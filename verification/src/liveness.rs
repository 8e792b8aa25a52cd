//! Liveness of required consumers.
use vstd::prelude::*;
use crate::text::{option_str_view, same_text, views};

verus! {

/// What happens when a required consumer stalls.
#[derive(Clone, Copy, Debug, PartialEq, Eq, Structural)]
pub enum FailureAction {
    GracefulShutdown,
}

/// How the liveness of required consumers is watched.
#[derive(Clone, Debug)]
pub struct LivenessConfig {
    pub required_consumer_ids: Vec<String>,
    pub startup_wait_timeout_ms: u64,
    pub progress_timeout_ms: u64,
    pub progress_check_interval_ms: u64,
    pub shutdown_grace_period_ms: u64,
    pub failure_action: FailureAction,
}

/// Whether liveness is switched on, by the value of its variable.
pub fn liveness_enabled(value: Option<&str>) -> (r: bool)
    ensures
        r == (option_str_view(value) == Some("on"@)),
{
    match value {
        Some(text) => same_text(text, "on"),
        None => false,
    }
}

/// The watch over the given consumers, with timings that suit a benchmark.
pub fn liveness_config(consumer_ids: &Vec<&str>) -> (r: LivenessConfig)
    ensures
        views(r.required_consumer_ids@) == Seq::new(
            consumer_ids@.len(),
            |i: int| consumer_ids@[i]@,
        ),
        r.startup_wait_timeout_ms == 5_000,
        r.progress_timeout_ms == 50,
        r.progress_check_interval_ms == 2,
        r.shutdown_grace_period_ms == 1_000,
        r.failure_action == FailureAction::GracefulShutdown,
{
    let mut ids: Vec<String> = Vec::new();
    for i in 0..consumer_ids.len()
        invariant
            views(ids@) == Seq::new(i as nat, |k: int| consumer_ids@[k]@),
    {
        let ghost before = views(ids@);
        ids.push(consumer_ids[i].to_owned());
        assert(views(ids@) =~= before.push(consumer_ids@[i as int]@));
        assert(views(ids@) =~= Seq::new((i + 1) as nat, |k: int| consumer_ids@[k]@));
    }
    LivenessConfig {
        required_consumer_ids: ids,
        startup_wait_timeout_ms: 5_000,
        progress_timeout_ms: 50,
        progress_check_interval_ms: 2,
        shutdown_grace_period_ms: 1_000,
        failure_action: FailureAction::GracefulShutdown,
    }
}

} // verus!
