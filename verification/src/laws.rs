//! Cross-operation guarantees of the session lifecycle.
//!
//! The store methods' contracts each pin one transition of a session: live or
//! absent, exit flag set or not, exit event emitted or not. The model here
//! joins those transitions over whole histories and proves the subsystem's
//! central property: however the paths race, a session's exit event is
//! delivered at most once — and exactly once when the session terminates
//! naturally (reader end or detected exit) without an explicit destroy or a
//! liveness probe claiming the flag first.

use vstd::prelude::*;

use crate::store::Session;

verus! {

/// A session as the registry sees it: absent, or live with its exit flag.
pub enum SessionPhase {
    Absent,
    Live { exit_claimed: bool },
}

/// The operations that can touch a session's exit notification. Each mirrors
/// the contract of one registry method.
pub enum SessionSignal {
    /// The pump's read loop ended (`on_reader_end`): claim the flag, emit
    /// the exit event only if the claim won; the session stays registered.
    ReaderEnd,
    /// The watcher saw the child exit (`watcher_step` with an exited probe):
    /// claim, emit only if the claim won, and remove the session.
    ExitDetected,
    /// Explicit teardown (`destroy_pty`): remove the session and set the
    /// flag on the way out; never emits.
    Destroy,
    /// A liveness probe saw the child exit (`is_pty_alive_probe`): set the
    /// flag so no event fires later; never emits.
    AliveProbeExit,
    /// Any operation that leaves the exit flag and registration alone.
    Untouched,
}

/// How one signal moves a session's phase.
pub open spec fn signal_step(p: SessionPhase, s: SessionSignal) -> SessionPhase {
    match s {
        SessionSignal::ReaderEnd => match p {
            SessionPhase::Absent => SessionPhase::Absent,
            SessionPhase::Live { .. } => SessionPhase::Live { exit_claimed: true },
        },
        SessionSignal::ExitDetected => SessionPhase::Absent,
        SessionSignal::Destroy => SessionPhase::Absent,
        SessionSignal::AliveProbeExit => match p {
            SessionPhase::Absent => SessionPhase::Absent,
            SessionPhase::Live { .. } => SessionPhase::Live { exit_claimed: true },
        },
        SessionSignal::Untouched => p,
    }
}

/// Whether the signal delivers the session's exit event: only a claiming
/// termination path that finds the session live and unclaimed does.
pub open spec fn signal_emits_exit(p: SessionPhase, s: SessionSignal) -> bool {
    match s {
        SessionSignal::ReaderEnd => p == (SessionPhase::Live { exit_claimed: false }),
        SessionSignal::ExitDetected => p == (SessionPhase::Live { exit_claimed: false }),
        SessionSignal::Destroy => false,
        SessionSignal::AliveProbeExit => false,
        SessionSignal::Untouched => false,
    }
}

/// How `is_pty_alive` reads a phase: live and exit not yet claimed.
pub open spec fn phase_alive(p: SessionPhase) -> bool {
    p == (SessionPhase::Live { exit_claimed: false })
}

/// One session's phase, read off the registry's map.
pub open spec fn phase_of(m: Map<Seq<char>, Session>, id: Seq<char>) -> SessionPhase {
    if m.contains_key(id) {
        SessionPhase::Live { exit_claimed: m[id].exit_event_sent }
    } else {
        SessionPhase::Absent
    }
}

/// `on_reader_end`'s contract refines the `ReaderEnd` signal: from any
/// registry state, the session's phase moves as `signal_step` says and the
/// exit event goes out exactly when `signal_emits_exit` says.
pub proof fn lemma_reader_end_refines(
    pre: Map<Seq<char>, Session>,
    post: Map<Seq<char>, Session>,
    id: Seq<char>,
    emitted: bool,
)
    requires
        emitted ==> pre.contains_key(id) && !pre[id].exit_event_sent && post == pre.insert(
            id,
            (Session { exit_event_sent: true, metrics: pre[id].metrics }),
        ),
        !emitted ==> (!pre.contains_key(id) || pre[id].exit_event_sent) && post == pre,
    ensures
        phase_of(post, id) == signal_step(phase_of(pre, id), SessionSignal::ReaderEnd),
        emitted == signal_emits_exit(phase_of(pre, id), SessionSignal::ReaderEnd),
{
}

/// `watcher_step`'s contract on a detected exit refines the `ExitDetected`
/// signal: the session ends absent, and the event goes out exactly when the
/// watcher won the claim.
pub proof fn lemma_watcher_exit_refines(
    pre: Map<Seq<char>, Session>,
    post: Map<Seq<char>, Session>,
    id: Seq<char>,
    emitted: bool,
)
    requires
        pre.contains_key(id) ==> post == pre.remove(id) && emitted == !pre[id].exit_event_sent,
        !pre.contains_key(id) ==> post == pre && !emitted,
    ensures
        phase_of(post, id) == signal_step(phase_of(pre, id), SessionSignal::ExitDetected),
        emitted == signal_emits_exit(phase_of(pre, id), SessionSignal::ExitDetected),
{
}

/// `destroy_pty`'s contract refines the `Destroy` signal: the session ends
/// absent and nothing is ever emitted on this path.
pub proof fn lemma_destroy_refines(
    pre: Map<Seq<char>, Session>,
    post: Map<Seq<char>, Session>,
    id: Seq<char>,
)
    requires
        post == pre.remove(id),
    ensures
        phase_of(post, id) == signal_step(phase_of(pre, id), SessionSignal::Destroy),
        !signal_emits_exit(phase_of(pre, id), SessionSignal::Destroy),
{
}

/// `is_pty_alive_probe`'s contract on a detected exit refines the
/// `AliveProbeExit` signal: the flag is set quietly, emitting nothing.
pub proof fn lemma_alive_probe_refines(
    pre: Map<Seq<char>, Session>,
    post: Map<Seq<char>, Session>,
    id: Seq<char>,
)
    requires
        pre.contains_key(id) && !pre[id].exit_event_sent ==> post == pre.insert(
            id,
            (Session { exit_event_sent: true, metrics: pre[id].metrics }),
        ),
        !pre.contains_key(id) || pre[id].exit_event_sent ==> post == pre,
    ensures
        phase_of(post, id) == signal_step(phase_of(pre, id), SessionSignal::AliveProbeExit),
        !signal_emits_exit(phase_of(pre, id), SessionSignal::AliveProbeExit),
{
}

/// How many exit events a history of signals delivers from phase `p`.
pub open spec fn exits_emitted(p: SessionPhase, ops: Seq<SessionSignal>) -> nat
    decreases ops.len(),
{
    if ops.len() == 0 {
        0
    } else {
        (if signal_emits_exit(p, ops[0]) {
            1nat
        } else {
            0nat
        }) + exits_emitted(signal_step(p, ops[0]), ops.skip(1))
    }
}

/// Once a session is absent or its flag is set, no history of signals can
/// deliver an exit event again: whoever lost the claim emits nothing.
pub proof fn lemma_no_exit_once_settled(p: SessionPhase, ops: Seq<SessionSignal>)
    requires
        !phase_alive(p),
    ensures
        exits_emitted(p, ops) == 0,
    decreases ops.len(),
{
    if ops.len() > 0 {
        lemma_no_exit_once_settled(signal_step(p, ops[0]), ops.skip(1));
    }
}

/// At most one exit event per session, whatever the history: every race
/// between the pump, the watcher, destroy and liveness probes is resolved by
/// the one flag claim.
pub proof fn lemma_at_most_one_exit(p: SessionPhase, ops: Seq<SessionSignal>)
    ensures
        exits_emitted(p, ops) <= 1,
    decreases ops.len(),
{
    if ops.len() > 0 {
        if signal_emits_exit(p, ops[0]) {
            lemma_no_exit_once_settled(signal_step(p, ops[0]), ops.skip(1));
        } else {
            lemma_at_most_one_exit(signal_step(p, ops[0]), ops.skip(1));
        }
    }
}

/// A session that terminates naturally delivers exactly one exit event: if
/// the history holds a claiming termination path (reader end or detected
/// exit) and no destroy or liveness claim, the count is one.
pub proof fn lemma_exactly_one_exit(p: SessionPhase, ops: Seq<SessionSignal>)
    requires
        phase_alive(p),
        forall|i: int|
            0 <= i < ops.len() ==> !(#[trigger] ops[i] is Destroy) && !(ops[i] is AliveProbeExit),
        exists|i: int| 0 <= i < ops.len() && ((#[trigger] ops[i]) is ReaderEnd || ops[i] is ExitDetected),
    ensures
        exits_emitted(p, ops) == 1,
    decreases ops.len(),
{
    let w = choose|i: int|
        0 <= i < ops.len() && ((#[trigger] ops[i]) is ReaderEnd || ops[i] is ExitDetected);
    if ops[0] is ReaderEnd || ops[0] is ExitDetected {
        assert(signal_emits_exit(p, ops[0]));
        lemma_no_exit_once_settled(signal_step(p, ops[0]), ops.skip(1));
    } else {
        assert(ops[0] is Untouched);
        assert(signal_step(p, ops[0]) == p);
        assert(w != 0);
        assert(ops.skip(1)[w - 1] == ops[w]);
        lemma_exactly_one_exit(p, ops.skip(1));
    }
}

/// Destroying is idempotent: on the registry's map, removing an id twice is
/// the same as removing it once, and the id is gone afterwards — so a second
/// concurrent destroy is a no-op success with no side effects.
pub proof fn lemma_destroy_idempotent(m: Map<Seq<char>, Session>, id: Seq<char>)
    ensures
        m.remove(id).remove(id) == m.remove(id),
        !m.remove(id).contains_key(id),
{
    assert(m.remove(id).remove(id) =~= m.remove(id));
}

/// A session is never alive again after its exit event fired: the emitting
/// signal leaves the phase settled, which `is_pty_alive` reads as dead — as
/// it reads an absent (unregistered or destroyed) session.
pub proof fn lemma_not_alive_after_exit(p: SessionPhase, s: SessionSignal)
    requires
        signal_emits_exit(p, s),
    ensures
        !phase_alive(signal_step(p, s)),
        !phase_alive(SessionPhase::Absent),
{
}

} // verus!
