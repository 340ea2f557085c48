//! Retains the latest battery status of a half and decides when to re-publish it.
//!
//! A half sends its battery level to the central once at boot, before the split link is up, and
//! after that only when the level changes, which near a full charge can be never. Re-publishing
//! the retained value gives the split link something to forward once it is up: a few polls after
//! the link comes up, and unconditionally every [`PERIODIC_RESEND_TICKS`] polls.
use vstd::prelude::*;

verus! {

/// Poll interval (ms).
pub const POLL_INTERVAL_MS: u32 = 1000;

/// Delay (ms) from observing the split link come up to the re-publish, so that the re-publish
/// lands after the split task has subscribed to what it forwards.
pub const LINK_UP_RESEND_DELAY_MS: u32 = 2000;

/// Interval (ms) of the unconditional re-publish.
pub const PERIODIC_RESEND_INTERVAL_MS: u32 = 30_000;

/// Number of polls to wait after the split link comes up.
pub const LINK_UP_RESEND_DELAY_TICKS: u32 = LINK_UP_RESEND_DELAY_MS / POLL_INTERVAL_MS;

/// Number of polls between two unconditional re-publishes.
pub const PERIODIC_RESEND_TICKS: u32 = PERIODIC_RESEND_INTERVAL_MS / POLL_INTERVAL_MS;

/// Processor state that retains the battery status `S` of this half and re-publishes it.
pub struct BatteryResendProcessor<S> {
    /// Latest battery status seen on this half, `None` until the first one arrives.
    pub status: Option<S>,
    /// Whether the split link to the central is established.
    pub central_connected: bool,
    /// Polls left before the re-publish scheduled by the link coming up, `0` when none is.
    pub link_up_delay: u32,
    /// Polls left before the next unconditional re-publish.
    pub periodic_delay: u32,
}

impl<S: Copy> BatteryResendProcessor<S> {
    /// Whether the periodic countdown is within its period.
    pub open spec fn wf(&self) -> bool {
        1 <= self.periodic_delay <= PERIODIC_RESEND_TICKS
    }

    /// The state after one poll: both countdowns advanced, the periodic one starting over once
    /// it elapses.
    pub open spec fn spec_polled(&self) -> Self {
        BatteryResendProcessor {
            link_up_delay: if self.link_up_delay > 0 {
                (self.link_up_delay - 1) as u32
            } else {
                0
            },
            periodic_delay: if self.periodic_delay <= 1 {
                PERIODIC_RESEND_TICKS
            } else {
                (self.periodic_delay - 1) as u32
            },
            ..*self
        }
    }

    /// What one poll re-publishes: the retained status, when the countdown started by the link
    /// coming up or the periodic one elapses.
    pub open spec fn spec_resend(&self) -> Option<S> {
        if self.link_up_delay == 1 || self.periodic_delay <= 1 {
            self.status
        } else {
            None
        }
    }

    /// The state after `n` polls.
    pub open spec fn spec_after_polls(&self, n: nat) -> Self
        decreases n,
    {
        if n == 0 {
            *self
        } else {
            self.spec_after_polls((n - 1) as nat).spec_polled()
        }
    }

    /// Builds the processor with nothing retained yet.
    pub fn new() -> (r: Self)
        ensures
            r.wf(),
            r.status.is_none(),
            !r.central_connected,
            r.link_up_delay == 0,
            r.periodic_delay == PERIODIC_RESEND_TICKS,
    {
        BatteryResendProcessor {
            status: None,
            central_connected: false,
            link_up_delay: 0,
            periodic_delay: PERIODIC_RESEND_TICKS,
        }
    }

    /// Takes in a change of the split link state and schedules a re-publish when it comes up.
    pub fn on_central_connected_event(&mut self, connected: bool)
        ensures
            final(self).central_connected == connected,
            final(self).link_up_delay == (if connected && !old(self).central_connected {
                LINK_UP_RESEND_DELAY_TICKS
            } else {
                old(self).link_up_delay
            }),
            final(self).status == old(self).status,
            final(self).periodic_delay == old(self).periodic_delay,
    {
        if connected && !self.central_connected {
            self.link_up_delay = LINK_UP_RESEND_DELAY_TICKS;
        }
        self.central_connected = connected;
    }

    /// Retains the battery status.
    pub fn on_battery_status_event(&mut self, status: S)
        ensures
            final(self).status == Some(status),
            final(self).central_connected == old(self).central_connected,
            final(self).link_up_delay == old(self).link_up_delay,
            final(self).periodic_delay == old(self).periodic_delay,
    {
        self.status = Some(status);
    }

    /// Advances both timers, and returns the retained status when either of them elapses and
    /// there is one to re-publish.
    pub fn poll(&mut self) -> (resend: Option<S>)
        ensures
            *final(self) == old(self).spec_polled(),
            resend == old(self).spec_resend(),
            old(self).wf() ==> final(self).wf(),
    {
        let mut resend = false;
        if self.link_up_delay > 0 {
            self.link_up_delay = self.link_up_delay - 1;
            resend = resend || self.link_up_delay == 0;
        }
        self.periodic_delay = self.periodic_delay.saturating_sub(1);
        if self.periodic_delay == 0 {
            self.periodic_delay = PERIODIC_RESEND_TICKS;
            resend = true;
        }
        if resend {
            self.status
        } else {
            None
        }
    }
}

/// Once a status is retained, it is re-published within [`PERIODIC_RESEND_TICKS`] polls, and
/// then again every [`PERIODIC_RESEND_TICKS`] polls: the poll number `periodic_delay` from now
/// re-publishes it.
pub proof fn lemma_periodic_resend<S: Copy>(p: BatteryResendProcessor<S>, status: S)
    requires
        p.wf(),
        p.status == Some(status),
    ensures
        1 <= p.periodic_delay <= PERIODIC_RESEND_TICKS,
        p.spec_after_polls((p.periodic_delay - 1) as nat).spec_resend() == Some(status),
        p.spec_after_polls(p.periodic_delay as nat).periodic_delay == PERIODIC_RESEND_TICKS,
{
    lemma_countdown(p, (p.periodic_delay - 1) as nat);
}

proof fn lemma_countdown<S: Copy>(p: BatteryResendProcessor<S>, n: nat)
    requires
        p.wf(),
        n < p.periodic_delay,
    ensures
        p.spec_after_polls(n).periodic_delay == p.periodic_delay - n,
        p.spec_after_polls(n).status == p.status,
    decreases n,
{
    if n > 0 {
        lemma_countdown(p, (n - 1) as nat);
    }
}

/// When the split link comes up, the second poll after it re-publishes the retained status.
pub proof fn lemma_link_up_resend<S: Copy>(p: BatteryResendProcessor<S>, status: S)
    requires
        p.status == Some(status),
        !p.central_connected,
    ensures
        ({
            let connected = BatteryResendProcessor {
                central_connected: true,
                link_up_delay: LINK_UP_RESEND_DELAY_TICKS,
                ..p
            };
            connected.spec_after_polls(1).spec_resend() == Some(status)
        }),
{
    let connected = BatteryResendProcessor {
        central_connected: true,
        link_up_delay: LINK_UP_RESEND_DELAY_TICKS,
        ..p
    };
    assert(connected.spec_after_polls(1) == connected.spec_after_polls(0).spec_polled());
}

/// Nothing is re-published before a status has been seen.
pub proof fn lemma_nothing_before_status<S: Copy>(p: BatteryResendProcessor<S>)
    requires
        p.status.is_none(),
    ensures
        p.spec_resend().is_none(),
{
}

} // verus!
