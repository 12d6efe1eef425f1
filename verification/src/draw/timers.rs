//! Deadlines of the overlay's transient feedback and of the text caret's
//! blinking, in milliseconds on a monotonic clock.

use vstd::prelude::*;

verus! {

/// How long the text caret stays shown or hidden while blinking.
pub const CARET_BLINK_INTERVAL_MS: u64 = 530;

/// The timers of the feedback label and of the caret.
#[derive(Debug, Clone, Copy, PartialEq, Eq, Structural)]
pub struct Timers {
    /// When the feedback label disappears, while one shows.
    pub feedback_until: Option<u64>,
    /// Whether the blinking caret is in its shown phase.
    pub caret_visible: bool,
    /// When the caret next blinks, while it blinks.
    pub caret_until: Option<u64>,
}

/// What the passing of time changed.
#[derive(Debug, Clone, Copy, PartialEq, Eq, Structural)]
pub struct TimeoutOutcome {
    /// Something on screen changed.
    pub changed: bool,
    /// The feedback label disappeared: every output needs a new frame.
    pub feedback_expired: bool,
    /// The caret blinked: the caret's area needs a new frame.
    pub caret_blinked: bool,
}

/// The earlier of two optional deadlines.
pub open spec fn earliest(a: Option<u64>, b: Option<u64>) -> Option<u64> {
    match (a, b) {
        (Some(x), Some(y)) => Some(if x <= y {
            x
        } else {
            y
        }),
        (Some(x), None) => Some(x),
        (None, y) => y,
    }
}

/// The timers and what changed once the deadlines up to `now` passed.
pub open spec fn timeouts_passed(timers: Timers, now: u64, editing: bool) -> (Timers, TimeoutOutcome) {
    let feedback_expired = timers.feedback_until matches Some(until) && now >= until;
    let caret_due = timers.caret_until matches Some(until) && now >= until;
    let caret_blinked = caret_due && editing;
    (
        Timers {
            feedback_until: if feedback_expired {
                None
            } else {
                timers.feedback_until
            },
            caret_visible: if caret_blinked {
                !timers.caret_visible
            } else {
                timers.caret_visible
            },
            caret_until: if caret_due {
                if editing {
                    Some((now + CARET_BLINK_INTERVAL_MS) as u64)
                } else {
                    None
                }
            } else {
                timers.caret_until
            },
        },
        TimeoutOutcome {
            changed: feedback_expired || caret_blinked,
            feedback_expired,
            caret_blinked,
        },
    )
}

/// While text is edited, the caret alternates: it blinks once its phase
/// ends, the next phase ends one blink interval later, and after that second
/// blink it is shown or hidden as before.
pub proof fn lemma_caret_blinks_back(timers: Timers, now: u64)
    requires
        timers.caret_until matches Some(until) && now >= until,
        now + 2 * CARET_BLINK_INTERVAL_MS <= u64::MAX,
    ensures
        ({
            let (once, first) = timeouts_passed(timers, now, true);
            let later = (now + CARET_BLINK_INTERVAL_MS) as u64;
            let (twice, second) = timeouts_passed(once, later, true);
            &&& first.caret_blinked
            &&& once.caret_until == Some(later)
            &&& second.caret_blinked
            &&& twice.caret_visible == timers.caret_visible
        }),
{
}

impl Timers {
    /// No feedback, and a shown caret that does not blink.
    pub fn new() -> (res: Self)
        ensures
            res == (Timers { feedback_until: None, caret_visible: true, caret_until: None }),
    {
        Timers { feedback_until: None, caret_visible: true, caret_until: None }
    }

    /// When the overlay must wake up next: the earliest pending deadline.
    pub fn next_wakeup(&self) -> (res: Option<u64>)
        ensures
            res == earliest(self.feedback_until, self.caret_until),
    {
        match (self.feedback_until, self.caret_until) {
            (Some(x), Some(y)) => Some(if x <= y {
                x
            } else {
                y
            }),
            (Some(x), None) => Some(x),
            (None, y) => y,
        }
    }

    /// A feedback label shows from `now` for `duration` milliseconds.
    pub fn show_feedback(&mut self, now: u64, duration: u64)
        requires
            now + duration <= u64::MAX,
        ensures
            *final(self) == (Timers { feedback_until: Some((now + duration) as u64), ..*old(self) }),
    {
        self.feedback_until = Some(now + duration);
    }

    /// Restarts the caret's blinking in its shown phase when the edited
    /// text `shows_caret`, else stops it. Returns whether the caret
    /// reappeared.
    pub fn show_caret(&mut self, shows_caret: bool, now: u64) -> (changed: bool)
        requires
            now + CARET_BLINK_INTERVAL_MS <= u64::MAX,
        ensures
            shows_caret ==> changed == !old(self).caret_visible && *final(self) == (Timers {
                caret_visible: true,
                caret_until: Some((now + CARET_BLINK_INTERVAL_MS) as u64),
                ..*old(self)
            }),
            !shows_caret ==> !changed && *final(self) == (Timers { caret_until: None, ..*old(self) }),
    {
        if !shows_caret {
            self.caret_until = None;
            return false;
        }
        let changed = !self.caret_visible;
        self.caret_visible = true;
        self.caret_until = Some(now + CARET_BLINK_INTERVAL_MS);
        changed
    }

    /// Ends the feedback and the blinking when the overlay deactivates.
    /// Returns whether a feedback label disappeared.
    pub fn deactivate(&mut self) -> (had_feedback: bool)
        ensures
            had_feedback == old(self).feedback_until is Some,
            *final(self) == (Timers { feedback_until: None, caret_until: None, ..*old(self) }),
    {
        let had_feedback = self.feedback_until.is_some();
        self.feedback_until = None;
        self.caret_until = None;
        had_feedback
    }

    /// Lets the deadlines up to `now` pass: an expired feedback label
    /// disappears, and a caret whose phase ended blinks while a text is
    /// `editing`, or stops blinking otherwise.
    pub fn handle_timeouts(&mut self, now: u64, editing: bool) -> (res: TimeoutOutcome)
        requires
            now + CARET_BLINK_INTERVAL_MS <= u64::MAX,
        ensures
            (*final(self), res) == timeouts_passed(*old(self), now, editing),
    {
        let mut feedback_expired = false;
        if let Some(until) = self.feedback_until {
            if now >= until {
                self.feedback_until = None;
                feedback_expired = true;
            }
        }
        let mut caret_blinked = false;
        if let Some(until) = self.caret_until {
            if now >= until {
                if editing {
                    self.caret_visible = !self.caret_visible;
                    self.caret_until = Some(now + CARET_BLINK_INTERVAL_MS);
                    caret_blinked = true;
                } else {
                    self.caret_until = None;
                }
            }
        }
        TimeoutOutcome { changed: feedback_expired || caret_blinked, feedback_expired, caret_blinked }
    }
}

} // verus!
