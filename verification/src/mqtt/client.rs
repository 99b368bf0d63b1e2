use vstd::prelude::*;

verus! {

/// Attempts to connect before the ingest side gives up.
pub const MAX_RETRIES: u32 = 5;

/// Ping timeouts in a row after which a connection counts as lost.
pub const MAX_PING_FAILURES: u32 = 3;

/// What follows a failed attempt to connect.
#[derive(Debug, Clone, Copy, PartialEq, Eq, Structural)]
pub enum Retry {
    /// Another attempt is made after this many seconds.
    After(u64),
    /// No attempt is left.
    GiveUp,
}

/// The pause before the attempt that follows `failures` failed ones: five
/// seconds for each failure, half a minute at most.
pub open spec fn retry_delay(failures: u32) -> int {
    if 5 * failures < 30 {
        5 * failures
    } else {
        30
    }
}

/// What follows the failed attempt that brought the count of failures to
/// `failures`.
pub open spec fn after_failure(failures: u32) -> Retry {
    if failures < MAX_RETRIES {
        Retry::After(retry_delay(failures) as u64)
    } else {
        Retry::GiveUp
    }
}

/// Decides, after an attempt to connect has failed for the `failures`-th
/// time, whether and when the ingest side tries again.
pub fn run_mqtt_client(failures: u32) -> (retry: Retry)
    ensures
        retry == after_failure(failures),
{
    if failures < MAX_RETRIES {
        let delay: u64 = if failures < 6 {
            5 * (failures as u64)
        } else {
            30
        };
        Retry::After(delay)
    } else {
        Retry::GiveUp
    }
}

/// The longest stretch of a pause that passes without a look at the
/// shutdown flag, in milliseconds.
pub const PAUSE_TICK_MS: u64 = 100;

/// What the ingest side does next while it pauses between two attempts.
#[derive(Debug, Clone, Copy, PartialEq, Eq, Structural)]
pub enum Pause {
    /// Sleeps this many milliseconds, then looks again.
    Sleep(u64),
    /// The pause is over: the next attempt is made.
    Over,
    /// Shutdown was requested: no attempt follows.
    Abandon,
}

/// The next step of a pause of which `remaining_ms` milliseconds are left.
/// A shutdown request ends it at once; else it goes on in stretches of one
/// tick at most, until nothing is left.
pub open spec fn pause_step(remaining_ms: u64, shutdown: bool) -> Pause {
    if shutdown {
        Pause::Abandon
    } else if remaining_ms == 0 {
        Pause::Over
    } else if remaining_ms < PAUSE_TICK_MS {
        Pause::Sleep(remaining_ms)
    } else {
        Pause::Sleep(PAUSE_TICK_MS)
    }
}

/// Decides the next step of a pause between two attempts to connect.
pub fn next_pause(remaining_ms: u64, shutdown: bool) -> (step: Pause)
    ensures
        step == pause_step(remaining_ms, shutdown),
{
    if shutdown {
        Pause::Abandon
    } else if remaining_ms == 0 {
        Pause::Over
    } else if remaining_ms < PAUSE_TICK_MS {
        Pause::Sleep(remaining_ms)
    } else {
        Pause::Sleep(PAUSE_TICK_MS)
    }
}

/// What is left of a pause after a run of looks at the shutdown flag, each
/// followed by the sleep that it asked for.
pub open spec fn pause_left(remaining_ms: u64, looks: Seq<bool>) -> u64
    decreases looks.len(),
{
    if looks.len() == 0 {
        remaining_ms
    } else {
        let before = pause_left(remaining_ms, looks.drop_last());
        match pause_step(before, looks.last()) {
            Pause::Sleep(ms) => (before - ms) as u64,
            _ => before,
        }
    }
}

/// A pause never sleeps longer than one tick between two looks at the
/// shutdown flag, and a look that finds the flag set ends it.
pub proof fn lemma_pause_heeds_shutdown(remaining_ms: u64, looks: Seq<bool>)
    ensures
        pause_step(pause_left(remaining_ms, looks), true) == Pause::Abandon,
        pause_step(pause_left(remaining_ms, looks), false) matches Pause::Sleep(ms) ==> 0 < ms
            <= PAUSE_TICK_MS && ms <= pause_left(remaining_ms, looks),
        pause_left(remaining_ms, looks) <= remaining_ms,
    decreases looks.len(),
{
    if looks.len() > 0 {
        lemma_pause_heeds_shutdown(remaining_ms, looks.drop_last());
    }
}

/// What a connection knows between two events.
#[derive(Debug, Clone, Copy, PartialEq, Eq, Structural)]
pub struct Link {
    pub connected: bool,
    pub ping_failures: u32,
}

/// What a connection observes.
#[derive(Debug, Clone, Copy, PartialEq, Eq, Structural)]
pub enum LinkEvent {
    /// The shutdown flag was found set.
    ShutdownRequested,
    /// The broker acknowledged the connection.
    Connected,
    /// The broker answered a ping.
    PingAnswered,
    /// A record arrived and was handed to the pipeline; `delivered` tells
    /// whether its channel took it.
    Record { delivered: bool },
    /// Anything else that needs no answer, a record that could not be read
    /// included.
    Other,
    /// A ping was not answered in time.
    PingTimedOut,
    /// The connection failed.
    Failed,
}

/// What the connection does next.
#[derive(Debug, Clone, Copy, PartialEq, Eq, Structural)]
pub enum LinkStep {
    Continue,
    /// The connection ends in good order.
    Close,
    /// The connection ends with a fault, and a new attempt may follow.
    Fail,
}

impl Link {
    /// The connection and its next step after an event. It closes on a
    /// shutdown request and when the pipeline no longer takes records; it
    /// fails on a fault and on the third ping in a row that was not
    /// answered.
    pub open spec fn after(self, event: LinkEvent) -> (Link, LinkStep) {
        match event {
            LinkEvent::ShutdownRequested => (self, LinkStep::Close),
            LinkEvent::Connected => (Link { connected: true, ping_failures: 0 }, LinkStep::Continue),
            LinkEvent::PingAnswered => (Link { ping_failures: 0, ..self }, LinkStep::Continue),
            LinkEvent::Record { delivered } => (
                self,
                if delivered {
                    LinkStep::Continue
                } else {
                    LinkStep::Close
                },
            ),
            LinkEvent::Other => (self, LinkStep::Continue),
            LinkEvent::PingTimedOut => {
                let failures = if self.ping_failures < u32::MAX {
                    (self.ping_failures + 1) as u32
                } else {
                    u32::MAX
                };
                (
                    Link { ping_failures: failures, ..self },
                    if failures >= MAX_PING_FAILURES {
                        LinkStep::Fail
                    } else {
                        LinkStep::Continue
                    },
                )
            },
            LinkEvent::Failed => (self, LinkStep::Fail),
        }
    }
}

/// One step of a connection: what it knows after `event`, and what it does
/// next.
pub fn attempt_mqtt_connection(link: &mut Link, event: LinkEvent) -> (step: LinkStep)
    ensures
        (*final(link), step) == old(link).after(event),
{
    match event {
        LinkEvent::ShutdownRequested => LinkStep::Close,
        LinkEvent::Connected => {
            link.connected = true;
            link.ping_failures = 0;
            LinkStep::Continue
        },
        LinkEvent::PingAnswered => {
            link.ping_failures = 0;
            LinkStep::Continue
        },
        LinkEvent::Record { delivered } => {
            if delivered {
                LinkStep::Continue
            } else {
                LinkStep::Close
            }
        },
        LinkEvent::Other => LinkStep::Continue,
        LinkEvent::PingTimedOut => {
            if link.ping_failures < u32::MAX {
                link.ping_failures += 1;
            }
            if link.ping_failures >= MAX_PING_FAILURES {
                LinkStep::Fail
            } else {
                LinkStep::Continue
            }
        },
        LinkEvent::Failed => LinkStep::Fail,
    }
}

} // verus!
