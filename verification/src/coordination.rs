//! The handshake of a ping-pong run: flags that one process raises and the
//! other waits for.
use vstd::prelude::*;
use crate::decimal::{decimal, decimal_text};

verus! {

/// What the flags and counters of a run stand at.
#[derive(Clone, Copy, Debug, PartialEq, Eq, Structural)]
pub struct CoordinationState {
    pub producer_ready: i64,
    pub echo_ready: i64,
    pub shutdown: i64,
    pub events_sent: i64,
    pub events_echoed: i64,
    pub echo_attached: i64,
    pub consumer_attached: i64,
    pub warmup_sent: i64,
    pub warmup_echoed: i64,
}

/// A flag that a process waits for.
#[derive(Clone, Copy, Debug, PartialEq, Eq, Structural)]
pub enum CoordinationFlag {
    ProducerReady,
    EchoReady,
    EchoAttached,
    ConsumerAttached,
}

/// What to do about a flag that is waited for.
#[derive(Clone, Copy, Debug, PartialEq, Eq, Structural)]
pub enum FlagWait {
    /// It is raised.
    Raised,
    /// The time is up.
    TimedOut,
    /// Look again.
    Spin,
}

impl CoordinationState {
    /// All flags lowered and all counters at zero.
    pub open spec fn initial() -> CoordinationState {
        CoordinationState {
            producer_ready: 0,
            echo_ready: 0,
            shutdown: 0,
            events_sent: 0,
            events_echoed: 0,
            echo_attached: 0,
            consumer_attached: 0,
            warmup_sent: 0,
            warmup_echoed: 0,
        }
    }

    /// The value of a flag.
    pub open spec fn flag_value(&self, flag: CoordinationFlag) -> i64 {
        match flag {
            CoordinationFlag::ProducerReady => self.producer_ready,
            CoordinationFlag::EchoReady => self.echo_ready,
            CoordinationFlag::EchoAttached => self.echo_attached,
            CoordinationFlag::ConsumerAttached => self.consumer_attached,
        }
    }

    /// The state of a new segment.
    pub fn new() -> (r: CoordinationState)
        ensures
            r == CoordinationState::initial(),
    {
        CoordinationState {
            producer_ready: 0,
            echo_ready: 0,
            shutdown: 0,
            events_sent: 0,
            events_echoed: 0,
            echo_attached: 0,
            consumer_attached: 0,
            warmup_sent: 0,
            warmup_echoed: 0,
        }
    }

    /// Raises a flag.
    pub fn raise(&mut self, flag: CoordinationFlag)
        ensures
            final(self).flag_value(flag) == 1,
            *final(self) == match flag {
                CoordinationFlag::ProducerReady => CoordinationState {
                    producer_ready: 1,
                    ..*old(self)
                },
                CoordinationFlag::EchoReady => CoordinationState { echo_ready: 1, ..*old(self) },
                CoordinationFlag::EchoAttached => CoordinationState {
                    echo_attached: 1,
                    ..*old(self)
                },
                CoordinationFlag::ConsumerAttached => CoordinationState {
                    consumer_attached: 1,
                    ..*old(self)
                },
            },
    {
        match flag {
            CoordinationFlag::ProducerReady => {
                self.producer_ready = 1;
            },
            CoordinationFlag::EchoReady => {
                self.echo_ready = 1;
            },
            CoordinationFlag::EchoAttached => {
                self.echo_attached = 1;
            },
            CoordinationFlag::ConsumerAttached => {
                self.consumer_attached = 1;
            },
        }
    }

    /// Calls the run off.
    pub fn signal_shutdown(&mut self)
        ensures
            *final(self) == (CoordinationState { shutdown: 1, ..*old(self) }),
    {
        self.shutdown = 1;
    }

    /// Whether the run was called off.
    pub fn is_shutdown(&self) -> (r: bool)
        ensures
            r == (self.shutdown != 0),
    {
        self.shutdown != 0
    }

    /// What to do about a flag that was waited for so long.
    pub fn wait_for(&self, flag: CoordinationFlag, elapsed_ns: u128, timeout_ns: u128) -> (r:
        FlagWait)
        ensures
            r == if self.flag_value(flag) != 0 {
                FlagWait::Raised
            } else if elapsed_ns > timeout_ns {
                FlagWait::TimedOut
            } else {
                FlagWait::Spin
            },
    {
        let value: i64 = match flag {
            CoordinationFlag::ProducerReady => self.producer_ready,
            CoordinationFlag::EchoReady => self.echo_ready,
            CoordinationFlag::EchoAttached => self.echo_attached,
            CoordinationFlag::ConsumerAttached => self.consumer_attached,
        };
        if value != 0 {
            FlagWait::Raised
        } else if elapsed_ns > timeout_ns {
            FlagWait::TimedOut
        } else {
            FlagWait::Spin
        }
    }
}

/// The error of an echo process that did not come up in time.
pub fn echo_process_timeout(lane: usize) -> (r: String)
    ensures
        r@ == "timeout waiting for echo process on lane "@ + decimal_text(lane as nat),
{
    let mut message: String = "timeout waiting for echo process on lane ".to_owned();
    message.append(decimal(lane as u64).as_str());
    message
}

/// The error of an echo process that did not attach in time.
pub fn echo_service_timeout(lane: usize) -> (r: String)
    ensures
        r@ == "timeout waiting for echo service readiness on lane "@ + decimal_text(lane as nat),
{
    let mut message: String = "timeout waiting for echo service readiness on lane ".to_owned();
    message.append(decimal(lane as u64).as_str());
    message
}

/// Every flag is its own field: two states that agree in all but one flag's field
/// agree in the value of every other flag.
pub proof fn law_flags_are_apart(state: CoordinationState, value: i64)
    ensures
        ({
            let raised = CoordinationState { producer_ready: value, ..state };
            &&& raised.flag_value(CoordinationFlag::ProducerReady) == value
            &&& forall|flag: CoordinationFlag|
                flag != CoordinationFlag::ProducerReady ==> #[trigger] raised.flag_value(flag)
                    == state.flag_value(flag)
        }),
        ({
            let raised = CoordinationState { echo_ready: value, ..state };
            &&& raised.flag_value(CoordinationFlag::EchoReady) == value
            &&& forall|flag: CoordinationFlag|
                flag != CoordinationFlag::EchoReady ==> #[trigger] raised.flag_value(flag)
                    == state.flag_value(flag)
        }),
        ({
            let raised = CoordinationState { echo_attached: value, ..state };
            &&& raised.flag_value(CoordinationFlag::EchoAttached) == value
            &&& forall|flag: CoordinationFlag|
                flag != CoordinationFlag::EchoAttached ==> #[trigger] raised.flag_value(flag)
                    == state.flag_value(flag)
        }),
        ({
            let raised = CoordinationState { consumer_attached: value, ..state };
            &&& raised.flag_value(CoordinationFlag::ConsumerAttached) == value
            &&& forall|flag: CoordinationFlag|
                flag != CoordinationFlag::ConsumerAttached ==> #[trigger] raised.flag_value(flag)
                    == state.flag_value(flag)
        }),
{
}

/// No flag is raised, nothing is counted and no run is called off at first.
pub proof fn law_nothing_is_raised_at_first(flag: CoordinationFlag)
    ensures
        CoordinationState::initial().flag_value(flag) == 0,
        CoordinationState::initial().shutdown == 0,
        CoordinationState::initial().events_sent == 0,
        CoordinationState::initial().events_echoed == 0,
        CoordinationState::initial().warmup_sent == 0,
        CoordinationState::initial().warmup_echoed == 0,
{
}

} // verus!
