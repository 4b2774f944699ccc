use vstd::prelude::*;

use crate::dispatcher::{Categories, Completion};

verus! {

/// The state of the connection to the audio server.
#[derive(Clone, Copy, Debug, PartialEq, Eq, Structural)]
pub enum ConnectionState {
    Disconnected,
    Connecting,
    Ready,
    Failed,
    Terminated,
}

/// The most connection attempts one recovery makes.
pub const MAX_ATTEMPTS: u32 = 40;

/// Subscription mask bit for sinks.
pub const MASK_SINK: u32 = 1;

/// Subscription mask bit for capture devices.
pub const MASK_SOURCE: u32 = 2;

/// Subscription mask bit for stream inputs.
pub const MASK_SINK_INPUT: u32 = 4;

/// Event facility of sinks.
pub const EVENT_SINK: u32 = 0;

/// Event facility of capture devices.
pub const EVENT_SOURCE: u32 = 1;

/// Event facility of stream inputs.
pub const EVENT_SINK_INPUT: u32 = 2;

/// What the connection's owner does after a state change.
#[derive(Clone, Copy, Debug, PartialEq, Eq, Structural)]
pub enum StateAction {
    /// Nothing to do.
    Wait,
    /// Subscribe to changes with this mask, then issue one enumeration whose
    /// snapshot is applied as this completion says.
    SubscribeAndEnumerate(u32, Completion),
    /// Start the recovery loop.
    Recover,
}

/// What the recovery loop does next.
#[derive(Clone, Copy, Debug, PartialEq, Eq, Structural)]
pub enum RetryAction {
    /// Re-create the connection, then wait before asking again.
    Attempt,
    /// The connection is ready again: the loop ends.
    Recovered,
    /// Every attempt was spent: the failure is fatal.
    GiveUp,
}

/// The reconnect supervisor's state: whether a recovery is in progress and
/// how many attempts it has made.
#[derive(Clone, Copy, Debug, PartialEq, Eq, Structural)]
pub struct Supervisor {
    pub in_progress: bool,
    pub attempts: u32,
}

/// The subscription mask for the enabled categories: sinks always.
pub open spec fn mask_spec(c: Categories) -> u32 {
    (MASK_SINK + (if c.inputs { MASK_SOURCE } else { 0 }) + (if c.streams {
        MASK_SINK_INPUT
    } else {
        0
    })) as u32
}

/// The subscription mask for the enabled categories.
pub fn subscription_mask(c: Categories) -> (r: u32)
    ensures
        r == mask_spec(c),
{
    let mut flags: u32 = MASK_SINK;
    if c.inputs {
        flags = flags + MASK_SOURCE;
    }
    if c.streams {
        flags = flags + MASK_SINK_INPUT;
    }
    flags
}

/// Whether a change event of this facility concerns an enabled category.
pub open spec fn relevant_facility(facility: u32, c: Categories) -> bool {
    facility == EVENT_SINK || (facility == EVENT_SOURCE && c.inputs) || (facility
        == EVENT_SINK_INPUT && c.streams)
}

/// Whether a change event should refresh the outputs: its facility, the low
/// four bits, must name an enabled category.
pub fn subscribe_callback(event_type: u32, c: Categories) -> (r: bool)
    ensures
        r == relevant_facility(event_type % 16, c),
{
    let facility = event_type & 0xf;
    assert(event_type & 0xf == event_type % 16) by (bit_vector);
    facility == EVENT_SINK || (facility == EVENT_SOURCE && c.inputs) || (facility
        == EVENT_SINK_INPUT && c.streams)
}

/// The supervisor after one call of `step`, and what that call returns.
pub open spec fn step_spec(s: Supervisor) -> (Supervisor, RetryAction) {
    if s.attempts > 0 && !s.in_progress {
        (s, RetryAction::Recovered)
    } else if s.attempts >= MAX_ATTEMPTS {
        (s, RetryAction::GiveUp)
    } else {
        (Supervisor { attempts: (s.attempts + 1) as u32, ..s }, RetryAction::Attempt)
    }
}

/// The supervisor after `n` attempts that all failed.
pub open spec fn after_failures(n: u32) -> Supervisor {
    Supervisor { in_progress: true, attempts: n }
}

impl Supervisor {
    /// No recovery in progress.
    pub fn new() -> (r: Supervisor)
        ensures
            !r.in_progress,
            r.attempts == 0,
    {
        Supervisor { in_progress: false, attempts: 0 }
    }

    /// Decides what a state change leads to. Ready ends any recovery and
    /// asks for a subscription and one enumeration that replaces the
    /// registry wholesale, whether or not the subscription can be made; a failure or a
    /// termination starts a recovery unless one is in progress already.
    pub fn context_state_callback(&mut self, state: ConnectionState, c: Categories) -> (r:
        StateAction)
        ensures
            state == ConnectionState::Ready ==> r == StateAction::SubscribeAndEnumerate(
                mask_spec(c),
                Completion::Reload,
            ) && !final(self).in_progress && final(self).attempts == old(self).attempts,
            (state == ConnectionState::Failed || state == ConnectionState::Terminated) ==> (if old(
                self,
            ).in_progress {
                r == StateAction::Wait && *final(self) == *old(self)
            } else {
                r == StateAction::Recover && *final(self) == after_failures(0)
            }),
            (state == ConnectionState::Disconnected || state == ConnectionState::Connecting) ==> r
                == StateAction::Wait && *final(self) == *old(self),
    {
        match state {
            ConnectionState::Ready => {
                self.in_progress = false;
                StateAction::SubscribeAndEnumerate(subscription_mask(c), Completion::Reload)
            },
            ConnectionState::Failed | ConnectionState::Terminated => {
                if self.in_progress {
                    StateAction::Wait
                } else {
                    self.in_progress = true;
                    self.attempts = 0;
                    StateAction::Recover
                }
            },
            _ => StateAction::Wait,
        }
    }

    /// One turn of the recovery loop, taken before the first attempt and
    /// after each wait: it ends when the connection became ready since the
    /// last attempt, gives up after the last attempt, and else asks for one
    /// attempt more.
    pub fn retry_connection_loop(&mut self) -> (r: RetryAction)
        requires
            old(self).attempts <= MAX_ATTEMPTS,
        ensures
            (*final(self), r) == step_spec(*old(self)),
            final(self).attempts <= MAX_ATTEMPTS,
    {
        if self.attempts > 0 && !self.in_progress {
            RetryAction::Recovered
        } else if self.attempts >= MAX_ATTEMPTS {
            RetryAction::GiveUp
        } else {
            self.attempts = self.attempts + 1;
            RetryAction::Attempt
        }
    }
}

/// When the first `k - 1` attempts of a recovery fail and the `k`-th
/// succeeds, for `k` up to the limit, the loop makes exactly `k` attempts
/// and ends recovered; when all of them fail it gives up after the last.
pub proof fn lemma_retry_attempts(k: u32)
    requires
        1 <= k <= MAX_ATTEMPTS,
    ensures
        forall|n: u32|
            n < k ==> step_spec(after_failures(n)) == (after_failures((n + 1) as u32),
            RetryAction::Attempt),
        step_spec(Supervisor { in_progress: false, attempts: k }) == (Supervisor {
            in_progress: false,
            attempts: k,
        }, RetryAction::Recovered),
        step_spec(after_failures(MAX_ATTEMPTS)).1 == RetryAction::GiveUp,
{
}

/// A one-shot latch that swallows the refresh which a locally made change
/// provokes from the server.
#[derive(Clone, Copy, Debug, PartialEq, Eq, Structural)]
pub struct EchoLatch {
    pub ignore_next_callback: bool,
}

impl EchoLatch {
    /// A latch that swallows nothing.
    pub fn new() -> (r: EchoLatch)
        ensures
            !r.ignore_next_callback,
    {
        EchoLatch { ignore_next_callback: false }
    }

    /// Arms the latch for the next change event.
    pub fn set_ignore_next_callback(&mut self)
        ensures
            final(self).ignore_next_callback,
    {
        self.ignore_next_callback = true;
    }

    /// Whether a change event should refresh the outputs; an armed latch
    /// swallows this one event and disarms.
    pub fn handle_callback(&mut self) -> (proceed: bool)
        ensures
            proceed == !old(self).ignore_next_callback,
            !final(self).ignore_next_callback,
    {
        if self.ignore_next_callback {
            self.ignore_next_callback = false;
            false
        } else {
            true
        }
    }
}

} // verus!
