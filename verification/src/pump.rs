//! The output pump of one session: classifies each chunk read from the
//! pseudo-terminal master (bell, title capture) and batches the remaining
//! bytes, flushing them as one output event when the batch timeout has
//! elapsed or a flush is forced (end of stream, error, shutdown).
//!
//! The pump keeps two ghost histories: every byte the scanner passed through,
//! and every output payload emitted. Its invariant — emitted bytes plus the
//! pending batch equal all passed-through bytes — makes the stream guarantee
//! exact: output events, concatenated in emission order, are a prefix of the
//! child's raw output with title spans and BEL bytes excluded.

use vstd::prelude::*;
use vstd::utf8::{decode_utf8, valid_utf8};

use crate::events::PtyOutputEvent;
use crate::scanner::{bel_count, count_bel, scan, ScanMode, ScanState, TitleScanner};

verus! {

/// All chunks joined in order.
pub open spec fn cat(chunks: Seq<Seq<u8>>) -> Seq<u8>
    decreases chunks.len(),
{
    if chunks.len() == 0 {
        Seq::empty()
    } else {
        cat(chunks.drop_last()) + chunks.last()
    }
}

/// `x - y`, floored at zero; how elapsed time is measured on a `u64` clock.
pub open spec fn sat_sub64(x: u64, y: u64) -> u64 {
    if x >= y {
        (x - y) as u64
    } else {
        0
    }
}

/// When a batch of `len` pending bytes is sent: only when non-empty, and
/// then on a forced flush or once `timeout` milliseconds have elapsed since
/// the last send.
pub open spec fn spec_should_flush(len: nat, force: bool, now: u64, last: u64, timeout: u64) -> bool {
    len > 0 && (force || sat_sub64(now, last) >= timeout)
}

/// The titles of `ts` that decode as UTF-8, decoded, in order; a malformed
/// title drops that update.
pub open spec fn decoded_titles(ts: Seq<Seq<u8>>) -> Seq<Seq<char>>
    decreases ts.len(),
{
    if ts.len() == 0 {
        Seq::empty()
    } else {
        let rest = decoded_titles(ts.drop_last());
        if valid_utf8(ts.last()) {
            rest.push(decode_utf8(ts.last()))
        } else {
            rest
        }
    }
}

/// Relies on `String::from_utf8`: it succeeds exactly on valid UTF-8 and
/// returns the string those bytes encode.
#[verifier::external_body]
fn utf8_to_string(v: &Vec<u8>) -> (r: Option<String>)
    ensures
        r is Some <==> valid_utf8(v@),
        r matches Some(s) ==> s@ == decode_utf8(v@),
{
    match String::from_utf8(v.clone()) {
        Ok(s) => Some(s),
        Err(_) => None,
    }
}

/// Per-session output pump state: the title scanner, the pending batch, and
/// the batching clock.
pub struct OutputPump {
    scanner: TitleScanner,
    batch: Vec<u8>,
    last_send_ms: u64,
    batch_timeout_ms: u64,
    fed: Ghost<Seq<Seq<u8>>>,
    emitted: Ghost<Seq<Seq<u8>>>,
}

impl OutputPump {
    /// The scanner's state between chunks.
    pub closed spec fn scan_state(self) -> ScanState {
        self.scanner@
    }

    /// Bytes scanned but not yet emitted.
    pub closed spec fn pending(self) -> Seq<u8> {
        self.batch@
    }

    /// Every byte the scanner has passed through, over all chunks so far.
    pub closed spec fn scanned_bytes(self) -> Seq<u8> {
        cat(self.fed@)
    }

    /// Every output payload emitted so far, joined in emission order.
    pub closed spec fn emitted_bytes(self) -> Seq<u8> {
        cat(self.emitted@)
    }

    /// When the last output event was sent, on the caller's clock.
    pub closed spec fn last_send(self) -> u64 {
        self.last_send_ms
    }

    /// The configured batch timeout.
    pub closed spec fn timeout(self) -> u64 {
        self.batch_timeout_ms
    }

    /// Nothing scanned is lost: what was emitted, then what is pending, is
    /// exactly what the scanner passed through.
    pub closed spec fn wf(self) -> bool {
        self.emitted_bytes() + self.pending() == self.scanned_bytes()
    }

    /// The stream guarantee: emitted output is a prefix of the scanned bytes,
    /// and catches up to them exactly when the batch is flushed.
    pub proof fn lemma_emitted_prefix(self)
        requires
            self.wf(),
        ensures
            self.emitted_bytes() + self.pending() == self.scanned_bytes(),
            self.emitted_bytes().is_prefix_of(self.scanned_bytes()),
    {
        assert(self.emitted_bytes() =~= (self.emitted_bytes() + self.pending()).subrange(
            0,
            self.emitted_bytes().len() as int,
        ));
    }

    /// A pump for a session created at `start_ms` with the given batch
    /// timeout: scanner clean, batch empty, nothing scanned or emitted.
    pub fn new(start_ms: u64, batch_timeout_ms: u64) -> (r: OutputPump)
        ensures
            r.wf(),
            r.scan_state() == (ScanState { mode: ScanMode::Ground, title: Seq::<u8>::empty() }),
            r.pending() == Seq::<u8>::empty(),
            r.scanned_bytes() == Seq::<u8>::empty(),
            r.emitted_bytes() == Seq::<u8>::empty(),
            r.last_send() == start_ms,
            r.timeout() == batch_timeout_ms,
    {
        let r = OutputPump {
            scanner: TitleScanner::new(),
            batch: Vec::new(),
            last_send_ms: start_ms,
            batch_timeout_ms,
            fed: Ghost(Seq::empty()),
            emitted: Ghost(Seq::empty()),
        };
        proof {
            assert(r.scanned_bytes() =~= Seq::<u8>::empty());
            assert(r.emitted_bytes() =~= Seq::<u8>::empty());
            assert(r.emitted_bytes() + r.pending() =~= r.scanned_bytes());
        }
        r
    }

    /// Handle one chunk read from the master at time `now_ms`: one bell
    /// event per BEL byte in the raw chunk, a title event per title completed
    /// in it (malformed ones dropped), and the pending batch as one output
    /// event if the batch timeout has elapsed — in that order.
    pub fn handle_chunk(&mut self, chunk: &[u8], now_ms: u64) -> (events: Vec<PtyOutputEvent>)
        requires
            old(self).wf(),
        ensures
            final(self).wf(),
            final(self).timeout() == old(self).timeout(),
            final(self).scan_state() == scan(old(self).scan_state(), chunk@).state,
            final(self).scanned_bytes() == old(self).scanned_bytes() + scan(
                old(self).scan_state(),
                chunk@,
            ).output,
            ({
                let s = scan(old(self).scan_state(), chunk@);
                let newbatch = old(self).pending() + s.output;
                let fl = spec_should_flush(
                    newbatch.len(),
                    false,
                    now_ms,
                    old(self).last_send(),
                    old(self).timeout(),
                );
                let boff = bel_count(chunk@) as int;
                let dts = decoded_titles(s.titles);
                &&& final(self).pending() == if fl {
                    Seq::<u8>::empty()
                } else {
                    newbatch
                }
                &&& final(self).emitted_bytes() == if fl {
                    old(self).emitted_bytes() + newbatch
                } else {
                    old(self).emitted_bytes()
                }
                &&& final(self).last_send() == if fl {
                    now_ms
                } else {
                    old(self).last_send()
                }
                &&& events@.len() == boff + dts.len() + if fl {
                    1int
                } else {
                    0int
                }
                &&& forall|j: int| 0 <= j < boff ==> #[trigger] events@[j] == PtyOutputEvent::Bell
                &&& forall|j: int|
                    0 <= j < dts.len() ==> (#[trigger] events@[boff + j] matches
                        PtyOutputEvent::Title { title } && title@ == dts[j])
                &&& fl ==> (events@[events@.len() - 1] matches PtyOutputEvent::Output(v) && v@
                    == newbatch)
            }),
    {
        let ghost s = scan(old(self).scan_state(), chunk@);
        let mut events: Vec<PtyOutputEvent> = Vec::new();
        let ghost boff = bel_count(chunk@) as int;
        let mut bells = count_bel(chunk);
        while bells > 0
            invariant
                events@.len() + bells == boff,
                forall|j: int| 0 <= j < events@.len() ==> #[trigger] events@[j]
                    == PtyOutputEvent::Bell,
            decreases bells,
        {
            events.push(PtyOutputEvent::Bell);
            bells = bells - 1;
        }
        let titles = self.scanner.scan_chunk(chunk, &mut self.batch);
        proof {
            self.fed@ = self.fed@.push(s.output);
            assert(self.fed@.drop_last() =~= old(self).fed@);
            assert(self.batch@ =~= old(self).batch@ + s.output);
            assert(self.emitted_bytes() + self.pending() =~= self.scanned_bytes());
        }
        let ghost tseq = titles@.map_values(|t: Vec<u8>| t@);
        let mut k: usize = 0;
        proof {
            assert(tseq.take(0) =~= Seq::<Seq<u8>>::empty());
        }
        while k < titles.len()
            invariant
                k <= titles@.len(),
                tseq == titles@.map_values(|t: Vec<u8>| t@),
                boff == bel_count(chunk@),
                forall|j: int| 0 <= j < boff ==> #[trigger] events@[j] == PtyOutputEvent::Bell,
                events@.len() == boff + decoded_titles(tseq.take(k as int)).len(),
                forall|j: int|
                    0 <= j < decoded_titles(tseq.take(k as int)).len() ==> (
                    #[trigger] events@[boff + j] matches PtyOutputEvent::Title { title } && title@
                        == decoded_titles(tseq.take(k as int))[j]),
            decreases titles@.len() - k,
        {
            proof {
                assert(tseq.take(k + 1).drop_last() =~= tseq.take(k as int));
                assert(tseq.take(k + 1).last() == tseq[k as int]);
            }
            match utf8_to_string(&titles[k]) {
                Some(t) => {
                    events.push(PtyOutputEvent::Title { title: t });
                },
                None => {},
            }
            k = k + 1;
        }
        proof {
            assert(tseq.take(k as int) =~= tseq);
            assert(tseq =~= s.titles);
        }
        let should = self.batch.len() > 0 && now_ms.saturating_sub(self.last_send_ms)
            >= self.batch_timeout_ms;
        if should {
            let mut payload: Vec<u8> = Vec::new();
            core::mem::swap(&mut payload, &mut self.batch);
            proof {
                self.emitted@ = self.emitted@.push(payload@);
                assert(self.emitted@.drop_last() =~= old(self).emitted@);
                assert(self.emitted@.last() == payload@);
                assert(self.emitted_bytes() =~= old(self).emitted_bytes() + payload@);
                assert(self.emitted_bytes() + self.pending() =~= self.scanned_bytes());
            }
            self.last_send_ms = now_ms;
            events.push(PtyOutputEvent::Output(payload));
        }
        events
    }

    /// Force-flush the pending batch (end of stream, read error, shutdown):
    /// the batch, if non-empty, goes out as one output event now.
    pub fn force_flush(&mut self, now_ms: u64) -> (r: Option<PtyOutputEvent>)
        requires
            old(self).wf(),
        ensures
            final(self).wf(),
            final(self).timeout() == old(self).timeout(),
            final(self).scan_state() == old(self).scan_state(),
            final(self).scanned_bytes() == old(self).scanned_bytes(),
            final(self).pending() == Seq::<u8>::empty(),
            old(self).pending().len() == 0 ==> ({
                &&& r is None
                &&& final(self).emitted_bytes() == old(self).emitted_bytes()
                &&& final(self).last_send() == old(self).last_send()
            }),
            old(self).pending().len() > 0 ==> ({
                &&& r matches Some(e) && e matches PtyOutputEvent::Output(v) && v@ == old(
                    self,
                ).pending()
                &&& final(self).emitted_bytes() == old(self).emitted_bytes() + old(self).pending()
                &&& final(self).last_send() == now_ms
            }),
    {
        if self.batch.len() > 0 {
            let mut payload: Vec<u8> = Vec::new();
            core::mem::swap(&mut payload, &mut self.batch);
            proof {
                self.emitted@ = self.emitted@.push(payload@);
                assert(self.emitted@.drop_last() =~= old(self).emitted@);
                assert(self.emitted@.last() == payload@);
                assert(self.emitted_bytes() =~= old(self).emitted_bytes() + payload@);
                assert(self.pending() =~= Seq::<u8>::empty());
                assert(self.emitted_bytes() + self.pending() =~= self.scanned_bytes());
            }
            self.last_send_ms = now_ms;
            Some(PtyOutputEvent::Output(payload))
        } else {
            proof {
                assert(self.pending() =~= Seq::<u8>::empty());
                assert(self.emitted_bytes() + self.pending() =~= self.scanned_bytes());
            }
            None
        }
    }
}

} // verus!
