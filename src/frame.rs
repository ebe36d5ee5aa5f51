use vstd::prelude::*;
use crate::geometry::{DrawCall, quad_draw_call, quad_draw_spec};

verus! {

/// Milliseconds from the start of one frame to the next wake-up.
pub const FRAME_INTERVAL_MS: u64 = 250;

/// Where the frame loop stands.
#[derive(Clone, Copy, Debug, PartialEq, Eq, Structural)]
pub enum FramePhase {
    /// Waiting for the timer, which is due at `wake_at_ms`.
    Idle { wake_at_ms: u64 },
    /// Drawing the frame that began at `started_ms`.
    Rendering { started_ms: u64 },
}

/// What the event source reports to the loop.
#[derive(Clone, Copy, Debug, PartialEq, Eq, Structural)]
pub enum FrameEvent {
    /// The thread woke up at `now_ms`.
    Wake { now_ms: u64 },
    /// The next swap-chain image was acquired.
    FrameAcquired,
    /// The next swap-chain image could not be acquired.
    AcquireFailed,
    /// The frame's commands were submitted.
    Submitted,
}

/// What the loop asks its driver to do next.
#[derive(Clone, Copy, Debug, PartialEq, Eq, Structural)]
pub enum FrameAction {
    /// Acquire the next swap-chain image.
    AcquireFrame,
    /// Record a render pass that clears to black and makes this draw, then submit.
    Render(DrawCall),
    /// Sleep until the given time.
    WaitUntil(u64),
    /// Nothing to do for this event.
    Ignore,
}

/// The timer-driven redraw loop, as a state machine.
pub struct FrameLoop {
    pub phase: FramePhase,
}

/// `a + b`, or `u64::MAX` where that does not fit.
pub open spec fn saturating_add_spec(a: u64, b: u64) -> u64 {
    if a + b > u64::MAX {
        u64::MAX
    } else {
        (a + b) as u64
    }
}

/// When the frame that began at `started` is followed by the next one.
pub open spec fn next_wake(started: u64) -> u64 {
    saturating_add_spec(started, FRAME_INTERVAL_MS)
}

/// The transition table: from a phase and an event, the next phase and the
/// action to take. A wake-up before the timer is due keeps waiting; a due one
/// starts a frame. A frame ends, drawn or dropped, by scheduling the next one
/// a fixed interval after it began. Events that do not fit the phase change
/// nothing.
pub open spec fn step_spec(p: FramePhase, e: FrameEvent) -> (FramePhase, FrameAction) {
    match (p, e) {
        (FramePhase::Idle { wake_at_ms }, FrameEvent::Wake { now_ms }) => if now_ms < wake_at_ms {
            (p, FrameAction::WaitUntil(wake_at_ms))
        } else {
            (FramePhase::Rendering { started_ms: now_ms }, FrameAction::AcquireFrame)
        },
        (FramePhase::Rendering { .. }, FrameEvent::FrameAcquired) => (
            p,
            FrameAction::Render(quad_draw_spec()),
        ),
        (FramePhase::Rendering { started_ms }, FrameEvent::AcquireFailed) => (
            FramePhase::Idle { wake_at_ms: next_wake(started_ms) },
            FrameAction::WaitUntil(next_wake(started_ms)),
        ),
        (FramePhase::Rendering { started_ms }, FrameEvent::Submitted) => (
            FramePhase::Idle { wake_at_ms: next_wake(started_ms) },
            FrameAction::WaitUntil(next_wake(started_ms)),
        ),
        _ => (p, FrameAction::Ignore),
    }
}

/// A frame cycle: a due wake-up starts a frame, which, whether it is drawn
/// and submitted or dropped because no image was acquired, ends idle with
/// the next wake-up a fixed interval after the frame began. A drawn frame
/// makes the quad's draw call. The loop never reaches a state it cannot
/// leave: every idle phase is left by a due wake-up.
pub proof fn lemma_frame_cycle(wake_at_ms: u64, now_ms: u64)
    requires
        wake_at_ms <= now_ms,
    ensures
        ({
            let idle = FramePhase::Idle { wake_at_ms };
            let (p1, a1) = step_spec(idle, FrameEvent::Wake { now_ms });
            let (p2, a2) = step_spec(p1, FrameEvent::FrameAcquired);
            let (p3, a3) = step_spec(p2, FrameEvent::Submitted);
            let (q2, b2) = step_spec(p1, FrameEvent::AcquireFailed);
            &&& a1 == FrameAction::AcquireFrame
            &&& a2 == FrameAction::Render(quad_draw_spec())
            &&& p3 == (FramePhase::Idle { wake_at_ms: next_wake(now_ms) })
            &&& a3 == FrameAction::WaitUntil(next_wake(now_ms))
            &&& q2 == p3 && b2 == a3
        }),
        now_ms <= u64::MAX - FRAME_INTERVAL_MS ==> next_wake(now_ms) == now_ms + FRAME_INTERVAL_MS,
{
}

fn next_wake_after(started: u64) -> (r: u64)
    ensures
        r == next_wake(started),
{
    if started > u64::MAX - FRAME_INTERVAL_MS {
        u64::MAX
    } else {
        started + FRAME_INTERVAL_MS
    }
}

impl FrameLoop {
    /// A loop whose first frame is due at once.
    pub fn new() -> (r: FrameLoop)
        ensures
            r.phase == (FramePhase::Idle { wake_at_ms: 0 }),
    {
        FrameLoop { phase: FramePhase::Idle { wake_at_ms: 0 } }
    }

    /// Takes one event, moves to the next phase and says what to do.
    pub fn step(&mut self, event: FrameEvent) -> (r: FrameAction)
        ensures
            (final(self).phase, r) == step_spec(old(self).phase, event),
    {
        match (self.phase, event) {
            (FramePhase::Idle { wake_at_ms }, FrameEvent::Wake { now_ms }) => {
                if now_ms < wake_at_ms {
                    FrameAction::WaitUntil(wake_at_ms)
                } else {
                    self.phase = FramePhase::Rendering { started_ms: now_ms };
                    FrameAction::AcquireFrame
                }
            },
            (FramePhase::Rendering { .. }, FrameEvent::FrameAcquired) => {
                FrameAction::Render(quad_draw_call())
            },
            (FramePhase::Rendering { started_ms }, FrameEvent::AcquireFailed)
            | (FramePhase::Rendering { started_ms }, FrameEvent::Submitted) => {
                let wake = next_wake_after(started_ms);
                self.phase = FramePhase::Idle { wake_at_ms: wake };
                FrameAction::WaitUntil(wake)
            },
            _ => FrameAction::Ignore,
        }
    }
}

} // verus!
