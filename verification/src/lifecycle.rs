//! Session lifecycle: creation, the per-call operations (write, resize,
//! liveness, destroy), and the termination paths of the two per-session
//! threads (output pump and exit watcher).
//!
//! Every path that may deliver the session's exit notification goes through
//! an atomic claim of the session's `exit_event_sent` flag, performed under
//! the registry lock by the methods here, so at most one exit event is ever
//! emitted per session.

use vstd::prelude::*;

use crate::events::{PtyError, PtyOutputEvent, PtySizeDto};
use crate::metrics::PtyMetrics;
use crate::store::{Session, SessionStore};

verus! {

/// `x + y` reduced into the 64-bit range, as the hardware wrapping add does.
pub open spec fn wrap_add64(x: u64, y: u64) -> u64 {
    if x + y > u64::MAX {
        (x + y - 0x1_0000_0000_0000_0000) as u64
    } else {
        (x + y) as u64
    }
}

/// Outcome of an attempt to claim a session's single exit notification.
#[derive(Clone, Copy, Debug, PartialEq, Eq, Structural)]
pub enum ClaimOutcome {
    /// No session is registered under the id.
    NotFound,
    /// The claim succeeded; the caller owns the one exit notification.
    Claimed,
    /// Another path claimed the notification earlier; emit nothing.
    AlreadyClaimed,
}

/// What a non-blocking probe of the child's exit status reported.
#[derive(Clone, Debug, PartialEq)]
pub enum WaitProbe {
    /// The child has exited; `status` describes how.
    Exited { status: String },
    /// The child is still running.
    StillRunning,
    /// The probe itself failed.
    ProbeError { detail: String },
}

/// What a liveness query can tell without probing the child.
#[derive(Clone, Copy, Debug, PartialEq, Eq, Structural)]
pub enum AliveCheck {
    /// Unknown id: not alive.
    NotFound,
    /// The exit notification was already claimed: not alive.
    AlreadyExited,
    /// Undecided: the caller must probe the child's exit status.
    NeedProbe,
}

/// One round of the exit watcher: what to emit, and whether to stop polling.
pub struct WatcherStep {
    /// The exit event to deliver, if this round won the claim.
    pub emit: Option<PtyOutputEvent>,
    /// True once the session is gone or its exit has been handled.
    pub done: bool,
}

/// The counters of one session at one instant.
#[derive(Clone, Copy, Debug, PartialEq, Eq, Structural)]
pub struct MetricsSnapshot {
    pub bytes_read: u64,
    pub bytes_written: u64,
    pub messages_sent: u64,
    pub uptime_ms: u64,
}

/// One round of the metrics reporter: emit a snapshot event or stop.
pub enum MetricsStep {
    /// The session is gone or has exited; stop reporting.
    Stop,
    /// Deliver this metrics event and keep reporting.
    Emit(PtyOutputEvent),
}

/// Relies on `uuid::Uuid::new_v4` and its `Display` form: a fresh random
/// version-4 identifier rendered as the 36-character hyphenated string.
#[verifier::external_body]
fn generate_session_id() -> (r: String)
    ensures
        r@.len() == 36,
{
    uuid::Uuid::new_v4().to_string()
}

/// A fresh identifier and the initial state of a session created now.
/// The caller registers the pair once every handle has been acquired.
pub fn new_session(now_ms: u64) -> (r: (String, Session))
    ensures
        r.0@.len() == 36,
        r.1 == (Session {
            exit_event_sent: false,
            metrics: PtyMetrics {
                bytes_read: 0,
                bytes_written: 0,
                messages_sent: 0,
                created_at_ms: now_ms,
            },
        }),
{
    (generate_session_id(), Session::new(now_ms))
}

impl SessionStore {
    /// Try to claim the session's single exit notification. The claim
    /// succeeds exactly when the session is registered and nobody claimed
    /// before; the flag is never cleared again.
    pub fn claim_exit(&mut self, id: &String) -> (r: ClaimOutcome)
        requires
            old(self).wf(),
        ensures
            final(self).wf(),
            match r {
                ClaimOutcome::NotFound => !old(self)@.contains_key(id@) && final(self)@ == old(
                    self,
                )@,
                ClaimOutcome::Claimed => old(self)@.contains_key(id@) && !old(self)@[id@]
                    .exit_event_sent && final(self)@ == old(self)@.insert(
                    id@,
                    (Session { exit_event_sent: true, metrics: old(self)@[id@].metrics }),
                ),
                ClaimOutcome::AlreadyClaimed => old(self)@.contains_key(id@) && old(self)@[id@]
                    .exit_event_sent && final(self)@ == old(self)@,
            },
    {
        let ghost pre = *old(self);
        match self.remove(id) {
            None => ClaimOutcome::NotFound,
            Some(s) => {
                let was_sent = s.exit_event_sent;
                self.add(id.clone(), Session { exit_event_sent: true, metrics: s.metrics });
                proof {
                    if was_sent {
                        assert(self@ =~= pre@);
                    } else {
                        assert(self@ =~= pre@.insert(
                            id@,
                            (Session { exit_event_sent: true, metrics: s.metrics }),
                        ));
                    }
                }
                if was_sent {
                    ClaimOutcome::AlreadyClaimed
                } else {
                    ClaimOutcome::Claimed
                }
            },
        }
    }

    /// The output pump's end: its read loop saw end-of-file or an error and
    /// already force-flushed. Claim the exit notification; the session stays
    /// registered (cleanup belongs to the watcher or to destroy).
    pub fn on_reader_end(&mut self, id: &String) -> (r: Option<PtyOutputEvent>)
        requires
            old(self).wf(),
        ensures
            final(self).wf(),
            match r {
                Some(e) => old(self)@.contains_key(id@) && !old(self)@[id@].exit_event_sent && (e
                matches PtyOutputEvent::Exit { status } && status@ == "Reader thread ended"@)
                    && final(self)@ == old(self)@.insert(
                    id@,
                    (Session { exit_event_sent: true, metrics: old(self)@[id@].metrics }),
                ),
                None => (!old(self)@.contains_key(id@) || old(self)@[id@].exit_event_sent)
                    && final(self)@ == old(self)@,
            },
    {
        match self.claim_exit(id) {
            ClaimOutcome::Claimed => Some(
                PtyOutputEvent::Exit { status: "Reader thread ended".to_owned() },
            ),
            _ => None,
        }
    }

    /// One polling round of the exit watcher, given what the non-blocking
    /// probe of the child reported. On a detected exit the watcher claims the
    /// notification (emitting only if it won), removes the session, and
    /// stops; otherwise it sleeps and polls again.
    pub fn watcher_step(&mut self, id: &String, probe: &WaitProbe) -> (r: WatcherStep)
        requires
            old(self).wf(),
        ensures
            final(self).wf(),
            !old(self)@.contains_key(id@) ==> r.done && r.emit is None && final(self)@ == old(
                self,
            )@,
            old(self)@.contains_key(id@) ==> match probe {
                WaitProbe::Exited { status } => {
                    &&& r.done
                    &&& final(self)@ == old(self)@.remove(id@)
                    &&& if old(self)@[id@].exit_event_sent {
                        r.emit is None
                    } else {
                        r.emit matches Some(e) && e matches PtyOutputEvent::Exit {
                            status: emitted,
                        } && emitted@ == status@
                    }
                },
                _ => !r.done && r.emit is None && final(self)@ == old(self)@,
            },
    {
        if !self.contains(id) {
            return WatcherStep { emit: None, done: true };
        }
        match probe {
            WaitProbe::Exited { status } => {
                let outcome = self.claim_exit(id);
                let _ = self.remove(id);
                proof {
                    assert(self@ =~= old(self)@.remove(id@));
                }
                match outcome {
                    ClaimOutcome::Claimed => WatcherStep {
                        emit: Some(PtyOutputEvent::Exit { status: status.clone() }),
                        done: true,
                    },
                    _ => WatcherStep { emit: None, done: true },
                }
            },
            _ => WatcherStep { emit: None, done: false },
        }
    }

    /// Explicit teardown. Unknown ids succeed with no effect, so destruction
    /// is idempotent; a removed session has its exit flag set, suppressing
    /// any racing exit emission. The caller kills and reaps the child and
    /// releases the handles; no exit event is ever emitted on this path.
    pub fn destroy_pty(&mut self, id: &String) -> (r: Option<Session>)
        requires
            old(self).wf(),
        ensures
            final(self).wf(),
            final(self)@ == old(self)@.remove(id@),
            !old(self)@.contains_key(id@) ==> r is None && final(self)@ == old(self)@,
            old(self)@.contains_key(id@) ==> r == Some(
                (Session { exit_event_sent: true, metrics: old(self)@[id@].metrics }),
            ),
    {
        match self.remove(id) {
            None => None,
            Some(s) => Some(Session { exit_event_sent: true, metrics: s.metrics }),
        }
    }

    /// What a liveness query knows before probing: unknown or already-exited
    /// sessions are dead; otherwise the child must be probed.
    pub fn is_pty_alive_check(&self, id: &String) -> (r: AliveCheck)
        requires
            self.wf(),
        ensures
            r == (if !self@.contains_key(id@) {
                AliveCheck::NotFound
            } else if self@[id@].exit_event_sent {
                AliveCheck::AlreadyExited
            } else {
                AliveCheck::NeedProbe
            }),
    {
        match self.get(id) {
            None => AliveCheck::NotFound,
            Some(s) => {
                if s.exit_event_sent {
                    AliveCheck::AlreadyExited
                } else {
                    AliveCheck::NeedProbe
                }
            },
        }
    }

    /// Resolve a liveness query from the probe's answer: a plain yes or no,
    /// never an error. A detected exit claims the flag (without emitting: the
    /// caller asked, nobody's sink is owed an event here) and reports dead; a
    /// failed probe reads as dead too.
    pub fn is_pty_alive_probe(&mut self, id: &String, probe: &WaitProbe) -> (r: bool)
        requires
            old(self).wf(),
        ensures
            final(self).wf(),
            !old(self)@.contains_key(id@) ==> !r && final(self)@ == old(self)@,
            old(self)@.contains_key(id@) && old(self)@[id@].exit_event_sent ==> !r && final(self)@
                == old(self)@,
            old(self)@.contains_key(id@) && !old(self)@[id@].exit_event_sent ==> match probe {
                WaitProbe::Exited { status } => !r && final(self)@ == old(self)@.insert(
                    id@,
                    (Session { exit_event_sent: true, metrics: old(self)@[id@].metrics }),
                ),
                WaitProbe::StillRunning => r && final(self)@ == old(self)@,
                WaitProbe::ProbeError { detail } => !r && final(self)@ == old(self)@,
            },
    {
        match self.is_pty_alive_check(id) {
            AliveCheck::NotFound => false,
            AliveCheck::AlreadyExited => false,
            AliveCheck::NeedProbe => match probe {
                WaitProbe::Exited { status: _ } => {
                    let _ = self.claim_exit(id);
                    false
                },
                WaitProbe::StillRunning => true,
                WaitProbe::ProbeError { detail: _ } => false,
            },
        }
    }

    /// Account for `n` bytes successfully written to the session's writer
    /// handle. Reports whether the session was registered.
    pub fn record_write(&mut self, id: &String, n: u64) -> (r: bool)
        requires
            old(self).wf(),
        ensures
            final(self).wf(),
            r == old(self)@.contains_key(id@),
            !r ==> final(self)@ == old(self)@,
            r ==> final(self)@ == old(self)@.insert(
                id@,
                (Session {
                    exit_event_sent: old(self)@[id@].exit_event_sent,
                    metrics: PtyMetrics {
                        bytes_written: wrap_add64(old(self)@[id@].metrics.bytes_written, n),
                        ..old(self)@[id@].metrics
                    },
                }),
            ),
    {
        let ghost pre = *old(self);
        match self.remove(id) {
            None => false,
            Some(s) => {
                let updated = Session {
                    exit_event_sent: s.exit_event_sent,
                    metrics: PtyMetrics {
                        bytes_written: s.metrics.bytes_written.wrapping_add(n),
                        ..s.metrics
                    },
                };
                self.add(id.clone(), updated);
                proof {
                    assert(self@ =~= pre@.insert(id@, updated));
                }
                true
            },
        }
    }

    /// Account for one output event of `n` bytes emitted by the session's
    /// pump: `bytes_read` grows by `n` and `messages_sent` by one.
    pub fn record_output(&mut self, id: &String, n: u64) -> (r: bool)
        requires
            old(self).wf(),
        ensures
            final(self).wf(),
            r == old(self)@.contains_key(id@),
            !r ==> final(self)@ == old(self)@,
            r ==> final(self)@ == old(self)@.insert(
                id@,
                (Session {
                    exit_event_sent: old(self)@[id@].exit_event_sent,
                    metrics: PtyMetrics {
                        bytes_read: wrap_add64(old(self)@[id@].metrics.bytes_read, n),
                        messages_sent: wrap_add64(old(self)@[id@].metrics.messages_sent, 1),
                        ..old(self)@[id@].metrics
                    },
                }),
            ),
    {
        let ghost pre = *old(self);
        match self.remove(id) {
            None => false,
            Some(s) => {
                let updated = Session {
                    exit_event_sent: s.exit_event_sent,
                    metrics: PtyMetrics {
                        bytes_read: s.metrics.bytes_read.wrapping_add(n),
                        messages_sent: s.metrics.messages_sent.wrapping_add(1),
                        ..s.metrics
                    },
                };
                self.add(id.clone(), updated);
                proof {
                    assert(self@ =~= pre@.insert(id@, updated));
                }
                true
            },
        }
    }

    /// The size to apply to the session's master handle: the requested cell
    /// counts, pixel dimensions zero. Unknown ids fail with `NotFound`;
    /// dimensions are not otherwise validated.
    pub fn resize_pty(&self, id: &String, rows: u16, cols: u16) -> (r: Result<
        PtySizeDto,
        PtyError,
    >)
        ensures
            self@.contains_key(id@) ==> r == Ok::<PtySizeDto, PtyError>(
                (PtySizeDto { rows, cols, pixel_width: 0, pixel_height: 0 }),
            ),
            !self@.contains_key(id@) ==> (r matches Err(e) && e matches PtyError::NotFound {
                pty_id,
            } && pty_id@ == id@),
    {
        if self.contains(id) {
            Ok(PtySizeDto { rows, cols, pixel_width: 0, pixel_height: 0 })
        } else {
            Err(PtyError::NotFound { pty_id: id.clone() })
        }
    }

    /// Gate a write: it may proceed exactly when the session is registered.
    pub fn write_begin(&self, id: &String) -> (r: Result<(), PtyError>)
        ensures
            self@.contains_key(id@) ==> r == Ok::<(), PtyError>(()),
            !self@.contains_key(id@) ==> (r matches Err(e) && e matches PtyError::NotFound {
                pty_id,
            } && pty_id@ == id@),
    {
        if self.contains(id) {
            Ok(())
        } else {
            Err(PtyError::NotFound { pty_id: id.clone() })
        }
    }

    /// One round of the periodic metrics reporter: stop once the session is
    /// gone or its exit has been claimed, otherwise emit a snapshot.
    pub fn metrics_step(&self, id: &String, now_ms: u64) -> (r: MetricsStep)
        requires
            self.wf(),
        ensures
            (!self@.contains_key(id@) || self@[id@].exit_event_sent) <==> r is Stop,
            self@.contains_key(id@) && !self@[id@].exit_event_sent ==> (r matches MetricsStep::Emit(
                e,
            ) && e == PtyOutputEvent::Metrics {
                bytes_read: self@[id@].metrics.bytes_read,
                bytes_written: self@[id@].metrics.bytes_written,
                messages_sent: self@[id@].metrics.messages_sent,
                uptime_ms: if now_ms >= self@[id@].metrics.created_at_ms {
                    (now_ms - self@[id@].metrics.created_at_ms) as u64
                } else {
                    0
                },
            }),
    {
        match self.get(id) {
            None => MetricsStep::Stop,
            Some(s) => {
                if s.exit_event_sent {
                    MetricsStep::Stop
                } else {
                    let m = s.metrics;
                    MetricsStep::Emit(
                        PtyOutputEvent::Metrics {
                            bytes_read: m.bytes_read,
                            bytes_written: m.bytes_written,
                            messages_sent: m.messages_sent,
                            uptime_ms: m.uptime_ms(now_ms),
                        },
                    )
                }
            },
        }
    }

    /// The session's counters at `now_ms`. Unknown ids fail with `NotFound`.
    pub fn get_pty_metrics(&self, id: &String, now_ms: u64) -> (r: Result<
        MetricsSnapshot,
        PtyError,
    >)
        requires
            self.wf(),
        ensures
            self@.contains_key(id@) ==> r == Ok::<MetricsSnapshot, PtyError>(
                (MetricsSnapshot {
                    bytes_read: self@[id@].metrics.bytes_read,
                    bytes_written: self@[id@].metrics.bytes_written,
                    messages_sent: self@[id@].metrics.messages_sent,
                    uptime_ms: if now_ms >= self@[id@].metrics.created_at_ms {
                        (now_ms - self@[id@].metrics.created_at_ms) as u64
                    } else {
                        0
                    },
                }),
            ),
            !self@.contains_key(id@) ==> (r matches Err(e) && e matches PtyError::NotFound {
                pty_id,
            } && pty_id@ == id@),
    {
        match self.get(id) {
            None => Err(PtyError::NotFound { pty_id: id.clone() }),
            Some(s) => {
                let m = s.metrics;
                Ok(
                    MetricsSnapshot {
                        bytes_read: m.bytes_read,
                        bytes_written: m.bytes_written,
                        messages_sent: m.messages_sent,
                        uptime_ms: m.uptime_ms(now_ms),
                    },
                )
            },
        }
    }
}

} // verus!
