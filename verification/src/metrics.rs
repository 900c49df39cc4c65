//! Per-session performance counters.

use vstd::prelude::*;

verus! {

/// Counters kept for one session: how many bytes its child has produced, how
/// many bytes have been written to it, how many output events were emitted,
/// and when the session was created (milliseconds on the caller's clock).
#[derive(Clone, Copy, Debug, PartialEq, Eq, Structural)]
pub struct PtyMetrics {
    pub bytes_read: u64,
    pub bytes_written: u64,
    pub messages_sent: u64,
    pub created_at_ms: u64,
}

impl PtyMetrics {
    /// Fresh counters for a session created at `created_at_ms`.
    pub fn new(created_at_ms: u64) -> (m: PtyMetrics)
        ensures
            m.bytes_read == 0,
            m.bytes_written == 0,
            m.messages_sent == 0,
            m.created_at_ms == created_at_ms,
    {
        PtyMetrics { bytes_read: 0, bytes_written: 0, messages_sent: 0, created_at_ms }
    }

    /// Session age at `now_ms`; a clock that moved backwards reads as zero.
    pub fn uptime_ms(&self, now_ms: u64) -> (r: u64)
        ensures
            r == if now_ms >= self.created_at_ms {
                now_ms - self.created_at_ms
            } else {
                0
            },
    {
        if now_ms >= self.created_at_ms {
            now_ms - self.created_at_ms
        } else {
            0
        }
    }
}

} // verus!
