//! The typed events a session delivers to its caller's sink, the size request
//! applied to a pseudo-terminal, and the error taxonomy of the subsystem.

use vstd::prelude::*;
use vstd::string::StringExecFns;

verus! {

/// One event on a session's output stream.
///
/// `Output` carries raw child bytes (title spans and BEL bytes already
/// removed), `Exit` carries a textual description of how the child ended and
/// is delivered at most once per session, `Bell` marks one ASCII BEL byte in
/// the child's output, `Title` carries a window-title update the child
/// requested, and `Metrics` is a periodic counter snapshot.
#[derive(Clone, Debug, PartialEq)]
pub enum PtyOutputEvent {
    Output(Vec<u8>),
    Exit { status: String },
    Metrics { bytes_read: u64, bytes_written: u64, messages_sent: u64, uptime_ms: u64 },
    Bell,
    Title { title: String },
}

/// A terminal size request: character cells and optional pixel dimensions.
#[derive(Clone, Copy, Debug, PartialEq, Eq, Structural)]
pub struct PtySizeDto {
    pub rows: u16,
    pub cols: u16,
    pub pixel_width: u16,
    pub pixel_height: u16,
}

/// Why an operation failed. Allocation, spawn and handle failures abort
/// session creation; `NotFound` and `IOFailure` are per-call failures.
#[derive(Clone, Debug, PartialEq)]
pub enum PtyError {
    /// The pseudo-terminal pair could not be allocated.
    ResourceAllocation { detail: String },
    /// The child command could not be spawned.
    Spawn { detail: String },
    /// The read or write handle of the master side could not be acquired.
    HandleUnavailable { detail: String },
    /// No live session carries the given identifier.
    NotFound { pty_id: String },
    /// A write or resize syscall failed.
    IOFailure { detail: String },
}

impl PtyError {
    /// The error as the caller-facing text.
    pub fn message(&self) -> (r: String)
        ensures
            match self {
                PtyError::ResourceAllocation { detail } => r@ == detail@,
                PtyError::Spawn { detail } => r@ == detail@,
                PtyError::HandleUnavailable { detail } => r@ == detail@,
                PtyError::NotFound { pty_id } => r@ == "PTY with ID "@ + pty_id@
                    + " not found"@,
                PtyError::IOFailure { detail } => r@ == detail@,
            },
    {
        match self {
            PtyError::ResourceAllocation { detail } => detail.clone(),
            PtyError::Spawn { detail } => detail.clone(),
            PtyError::HandleUnavailable { detail } => detail.clone(),
            PtyError::NotFound { pty_id } => {
                let mut s = String::new();
                s.append("PTY with ID ");
                s.append(pty_id.as_str());
                s.append(" not found");
                s
            },
            PtyError::IOFailure { detail } => detail.clone(),
        }
    }
}

} // verus!
