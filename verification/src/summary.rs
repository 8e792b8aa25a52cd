//! The line that is printed of a run.
use vstd::prelude::*;
use crate::latency::{format_ns, ns_text};

verus! {

/// The measured figures that the line of a run shows, in text form.
#[derive(Clone, Debug)]
pub struct SummaryFigures {
    pub producer_ops: String,
    pub consumer_ops: String,
    /// The target rate.
    pub target_rate: String,
    pub bandwidth_gbs: String,
    pub encode_us: String,
    pub write_us: String,
    pub decode_us: String,
    /// The summary of the latency.
    pub latency: Option<String>,
    pub p99_ns: Option<u64>,
}

/// The summary of the latency, or a dash.
pub open spec fn latency_or_dash(figures: SummaryFigures) -> Seq<char> {
    match figures.latency {
        Some(text) => text@,
        None => "-"@,
    }
}

/// The 99th percentile of the latency, or a dash.
pub open spec fn p99_of(figures: SummaryFigures) -> Seq<char> {
    match figures.p99_ns {
        Some(ns) => ns_text(ns as nat),
        None => "-"@,
    }
}

impl SummaryFigures {
    /// The summary of the latency, or a dash.
    pub fn latency_text(&self) -> (r: String)
        ensures
            r@ == latency_or_dash(*self),
    {
        match &self.latency {
            Some(text) => text.clone(),
            None => "-".to_owned(),
        }
    }

    /// The 99th percentile of the latency, or a dash.
    pub fn p99_text(&self) -> (r: String)
        ensures
            r@ == p99_of(*self),
    {
        match self.p99_ns {
            Some(ns) => format_ns(ns),
            None => "-".to_owned(),
        }
    }
}

} // verus!
