//! Classification of a session's raw byte stream: ASCII BEL detection and a
//! stateful scanner that strips OSC window-title sequences — and the BEL
//! bytes themselves — out of the stream.
//!
//! A title sequence is introduced by `ESC ] 0 ;`, captures every following
//! byte, and ends at a BEL or a backslash. The scanner works one byte at a
//! time and keeps its progress through the introducer in its state, so
//! recognition survives chunk boundaries: introducer bytes are held back
//! until the match is decided, released as output if it fails, swallowed if
//! it completes. Bytes inside a title sequence and BEL bytes are never
//! forwarded as output; a BEL rings the bell instead (see [`bel_count`]).
//! The spec function [`scan`] is the exact model of the scanner; the
//! executable scanner is proved to match it byte for byte.

use vstd::prelude::*;

verus! {

/// ASCII BEL: rings the terminal bell, terminates a title, and is never
/// forwarded as output.
pub const BEL_BYTE: u8 = 0x07;

/// ASCII ESC, first byte of the title introducer.
pub const ESC_BYTE: u8 = 0x1b;

/// `]`, second byte of the title introducer.
pub const OSC_BYTE: u8 = 0x5d;

/// `0`, third byte of the title introducer: the window-title OSC command.
pub const TITLE_CMD_BYTE: u8 = 0x30;

/// `;`, fourth byte of the title introducer.
pub const SEP_BYTE: u8 = 0x3b;

/// `\`, the other title terminator.
pub const BACKSLASH_BYTE: u8 = 0x5c;

/// Where the scanner stands between bytes: how far into the four-byte title
/// introducer it has matched (those bytes are held back until the match is
/// decided), or inside a title capture.
#[derive(Clone, Copy, Debug, PartialEq, Eq, Structural)]
pub enum ScanMode {
    /// Passthrough; nothing held.
    Ground,
    /// Holding `ESC`.
    SawEsc,
    /// Holding `ESC ]`.
    SawEscBracket,
    /// Holding `ESC ] 0`.
    SawEscBracketZero,
    /// Inside a title: capturing until a BEL or a backslash.
    Title,
}

/// The scanner between bytes: its mode and the title bytes captured so far.
pub struct ScanState {
    pub mode: ScanMode,
    pub title: Seq<u8>,
}

/// What scanning one byte sequence produces: the scanner's new state, the
/// bytes passed through as output, and each completed title (raw bytes).
pub struct ScanResult {
    pub state: ScanState,
    pub output: Seq<u8>,
    pub titles: Seq<Seq<u8>>,
}

/// The introducer bytes a mode is holding back.
pub open spec fn held_bytes(mode: ScanMode) -> Seq<u8> {
    match mode {
        ScanMode::Ground => Seq::empty(),
        ScanMode::SawEsc => seq![ESC_BYTE],
        ScanMode::SawEscBracket => seq![ESC_BYTE, OSC_BYTE],
        ScanMode::SawEscBracketZero => seq![ESC_BYTE, OSC_BYTE, TITLE_CMD_BYTE],
        ScanMode::Title => Seq::empty(),
    }
}

/// One byte seen with nothing held: an ESC starts a possible introducer, a
/// BEL only rings the bell, anything else passes through.
pub open spec fn ground_mode(b: u8) -> ScanMode {
    if b == ESC_BYTE {
        ScanMode::SawEsc
    } else {
        ScanMode::Ground
    }
}

/// What that byte contributes to the output.
pub open spec fn ground_out(b: u8) -> Seq<u8> {
    if b == ESC_BYTE || b == BEL_BYTE {
        Seq::empty()
    } else {
        seq![b]
    }
}

/// The scanner's exact behaviour on `input`, starting from `st`: one byte at
/// a time. While capturing, a BEL or backslash completes the title and
/// everything else is captured. While matching the introducer, the expected
/// byte advances the match silently; any other byte releases the held bytes
/// as output and is then handled as in passthrough. In passthrough, `ESC`
/// opens a possible introducer and a BEL is swallowed (the bell is counted
/// on the raw bytes); everything else passes through.
pub open spec fn scan(st: ScanState, input: Seq<u8>) -> ScanResult
    decreases input.len(),
{
    if input.len() == 0 {
        ScanResult { state: st, output: Seq::empty(), titles: Seq::empty() }
    } else {
        let b = input[0];
        let rest = input.skip(1);
        match st.mode {
            ScanMode::Title => {
                if b == BACKSLASH_BYTE || b == BEL_BYTE {
                    let r = scan(ScanState { mode: ScanMode::Ground, title: Seq::empty() }, rest);
                    ScanResult {
                        state: r.state,
                        output: r.output,
                        titles: seq![st.title] + r.titles,
                    }
                } else {
                    scan(ScanState { mode: ScanMode::Title, title: st.title.push(b) }, rest)
                }
            },
            ScanMode::Ground => {
                let r = scan(ScanState { mode: ground_mode(b), title: st.title }, rest);
                ScanResult {
                    state: r.state,
                    output: ground_out(b) + r.output,
                    titles: r.titles,
                }
            },
            ScanMode::SawEsc => {
                if b == OSC_BYTE {
                    scan(ScanState { mode: ScanMode::SawEscBracket, title: st.title }, rest)
                } else {
                    let r = scan(ScanState { mode: ground_mode(b), title: st.title }, rest);
                    ScanResult {
                        state: r.state,
                        output: seq![ESC_BYTE] + ground_out(b) + r.output,
                        titles: r.titles,
                    }
                }
            },
            ScanMode::SawEscBracket => {
                if b == TITLE_CMD_BYTE {
                    scan(ScanState { mode: ScanMode::SawEscBracketZero, title: st.title }, rest)
                } else {
                    let r = scan(ScanState { mode: ground_mode(b), title: st.title }, rest);
                    ScanResult {
                        state: r.state,
                        output: seq![ESC_BYTE, OSC_BYTE] + ground_out(b) + r.output,
                        titles: r.titles,
                    }
                }
            },
            ScanMode::SawEscBracketZero => {
                if b == SEP_BYTE {
                    scan(ScanState { mode: ScanMode::Title, title: Seq::empty() }, rest)
                } else {
                    let r = scan(ScanState { mode: ground_mode(b), title: st.title }, rest);
                    ScanResult {
                        state: r.state,
                        output: seq![ESC_BYTE, OSC_BYTE, TITLE_CMD_BYTE] + ground_out(b)
                            + r.output,
                        titles: r.titles,
                    }
                }
            },
        }
    }
}

/// The stateful title scanner of one session's output pump.
pub struct TitleScanner {
    mode: ScanMode,
    title_buf: Vec<u8>,
}

impl View for TitleScanner {
    type V = ScanState;

    closed spec fn view(&self) -> ScanState {
        ScanState { mode: self.mode, title: self.title_buf@ }
    }
}

impl TitleScanner {
    /// A scanner in passthrough mode with nothing captured.
    pub fn new() -> (r: TitleScanner)
        ensures
            r@ == (ScanState { mode: ScanMode::Ground, title: Seq::<u8>::empty() }),
    {
        let r = TitleScanner { mode: ScanMode::Ground, title_buf: Vec::new() };
        proof {
            assert(r@.title =~= Seq::<u8>::empty());
        }
        r
    }

    /// Handle one byte with nothing held, as `ground_mode`/`ground_out` say.
    fn ground_step(&mut self, b: u8, out: &mut Vec<u8>)
        ensures
            final(self)@ == (ScanState { mode: ground_mode(b), title: old(self)@.title }),
            final(out)@ == old(out)@ + ground_out(b),
    {
        if b == ESC_BYTE {
            self.mode = ScanMode::SawEsc;
            proof {
                assert(final(out)@ =~= old(out)@ + ground_out(b));
            }
        } else {
            self.mode = ScanMode::Ground;
            if b == BEL_BYTE {
                proof {
                    assert(final(out)@ =~= old(out)@ + ground_out(b));
                }
            } else {
                out.push(b);
                proof {
                    assert(final(out)@ =~= old(out)@ + ground_out(b));
                }
            }
        }
    }

    /// Scan one chunk: append the passed-through bytes to `out` and return
    /// the titles completed in this chunk, exactly as [`scan`] says.
    pub fn scan_chunk(&mut self, chunk: &[u8], out: &mut Vec<u8>) -> (titles: Vec<Vec<u8>>)
        ensures
            final(self)@ == scan(old(self)@, chunk@).state,
            final(out)@ == old(out)@ + scan(old(self)@, chunk@).output,
            titles@.map_values(|t: Vec<u8>| t@) == scan(old(self)@, chunk@).titles,
    {
        let ghost st0 = self@;
        let ghost out0 = out@;
        let mut titles: Vec<Vec<u8>> = Vec::new();
        let mut i: usize = 0;
        proof {
            assert(chunk@.skip(0) =~= chunk@);
            assert(out@ =~= out0 + Seq::<u8>::empty());
            assert(titles@.map_values(|t: Vec<u8>| t@) =~= Seq::<Seq<u8>>::empty());
        }
        while i < chunk.len()
            invariant
                i <= chunk@.len(),
                scan(st0, chunk@).state == scan(self@, chunk@.skip(i as int)).state,
                scan(st0, chunk@).output == out@.skip(out0.len() as int) + scan(
                    self@,
                    chunk@.skip(i as int),
                ).output,
                out@.len() >= out0.len(),
                out@.subrange(0, out0.len() as int) == out0,
                scan(st0, chunk@).titles == titles@.map_values(|t: Vec<u8>| t@) + scan(
                    self@,
                    chunk@.skip(i as int),
                ).titles,
            decreases chunk@.len() - i,
        {
            let ghost pre = self@;
            let ghost pre_out = out@;
            let ghost rem = chunk@.skip(i as int);
            assert(rem.len() > 0);
            assert(rem[0] == chunk@[i as int]);
            proof {
                assert(rem.skip(1) =~= chunk@.skip(i + 1));
            }
            let b = chunk[i];
            match self.mode {
                ScanMode::Title => {
                    if b == BACKSLASH_BYTE || b == BEL_BYTE {
                        titles.push(self.title_buf.clone());
                        self.title_buf.clear();
                        self.mode = ScanMode::Ground;
                        proof {
                            assert(self@ == (ScanState {
                                mode: ScanMode::Ground,
                                title: Seq::<u8>::empty(),
                            }));
                            assert(titles@.map_values(|t: Vec<u8>| t@) =~= titles@.map_values(
                                |t: Vec<u8>| t@,
                            ).drop_last().push(pre.title));
                            assert(titles@.map_values(|t: Vec<u8>| t@).drop_last() + scan(
                                pre,
                                rem,
                            ).titles =~= titles@.map_values(|t: Vec<u8>| t@) + scan(
                                self@,
                                chunk@.skip(i + 1),
                            ).titles);
                        }
                    } else {
                        self.title_buf.push(b);
                        proof {
                            assert(self@ == (ScanState {
                                mode: ScanMode::Title,
                                title: pre.title.push(b),
                            }));
                        }
                    }
                },
                ScanMode::Ground => {
                    self.ground_step(b, out);
                    proof {
                        assert(out@.skip(out0.len() as int) =~= pre_out.skip(out0.len() as int)
                            + ground_out(b));
                        assert(pre_out.skip(out0.len() as int) + (ground_out(b) + scan(
                            self@,
                            chunk@.skip(i + 1),
                        ).output) =~= out@.skip(out0.len() as int) + scan(
                            self@,
                            chunk@.skip(i + 1),
                        ).output);
                    }
                },
                ScanMode::SawEsc => {
                    if b == OSC_BYTE {
                        self.mode = ScanMode::SawEscBracket;
                        proof {
                            assert(self@ == (ScanState {
                                mode: ScanMode::SawEscBracket,
                                title: pre.title,
                            }));
                        }
                    } else {
                        out.push(ESC_BYTE);
                        self.ground_step(b, out);
                        proof {
                            assert(out@.skip(out0.len() as int) =~= pre_out.skip(
                                out0.len() as int,
                            ) + (seq![ESC_BYTE] + ground_out(b)));
                            assert(pre_out.skip(out0.len() as int) + (seq![ESC_BYTE] + ground_out(
                                b,
                            ) + scan(self@, chunk@.skip(i + 1)).output) =~= out@.skip(
                                out0.len() as int,
                            ) + scan(self@, chunk@.skip(i + 1)).output);
                        }
                    }
                },
                ScanMode::SawEscBracket => {
                    if b == TITLE_CMD_BYTE {
                        self.mode = ScanMode::SawEscBracketZero;
                        proof {
                            assert(self@ == (ScanState {
                                mode: ScanMode::SawEscBracketZero,
                                title: pre.title,
                            }));
                        }
                    } else {
                        out.push(ESC_BYTE);
                        out.push(OSC_BYTE);
                        self.ground_step(b, out);
                        proof {
                            assert(out@.skip(out0.len() as int) =~= pre_out.skip(
                                out0.len() as int,
                            ) + (seq![ESC_BYTE, OSC_BYTE] + ground_out(b)));
                            assert(pre_out.skip(out0.len() as int) + (seq![ESC_BYTE, OSC_BYTE]
                                + ground_out(b) + scan(self@, chunk@.skip(i + 1)).output)
                                =~= out@.skip(out0.len() as int) + scan(
                                self@,
                                chunk@.skip(i + 1),
                            ).output);
                        }
                    }
                },
                ScanMode::SawEscBracketZero => {
                    if b == SEP_BYTE {
                        self.mode = ScanMode::Title;
                        self.title_buf.clear();
                        proof {
                            assert(self@ == (ScanState {
                                mode: ScanMode::Title,
                                title: Seq::<u8>::empty(),
                            }));
                        }
                    } else {
                        out.push(ESC_BYTE);
                        out.push(OSC_BYTE);
                        out.push(TITLE_CMD_BYTE);
                        self.ground_step(b, out);
                        proof {
                            assert(out@.skip(out0.len() as int) =~= pre_out.skip(
                                out0.len() as int,
                            ) + (seq![ESC_BYTE, OSC_BYTE, TITLE_CMD_BYTE] + ground_out(b)));
                            assert(pre_out.skip(out0.len() as int) + (seq![
                                ESC_BYTE,
                                OSC_BYTE,
                                TITLE_CMD_BYTE,
                            ] + ground_out(b) + scan(self@, chunk@.skip(i + 1)).output)
                                =~= out@.skip(out0.len() as int) + scan(
                                self@,
                                chunk@.skip(i + 1),
                            ).output);
                        }
                    }
                },
            }
            i = i + 1;
        }
        proof {
            assert(chunk@.skip(i as int) =~= Seq::<u8>::empty());
            assert(out@ =~= out0 + out@.skip(out0.len() as int));
        }
        titles
    }
}

/// `a` can be obtained from `b` by deleting bytes, keeping the order.
pub open spec fn is_subseq_of(a: Seq<u8>, b: Seq<u8>) -> bool
    decreases b.len(),
{
    if a.len() == 0 {
        true
    } else if b.len() == 0 {
        false
    } else if a[0] == b[0] {
        is_subseq_of(a.skip(1), b.skip(1))
    } else {
        is_subseq_of(a, b.skip(1))
    }
}

/// Dropping the head of a subsequence leaves a subsequence.
proof fn lemma_subseq_drop_head(a: Seq<u8>, b: Seq<u8>)
    requires
        a.len() > 0,
        is_subseq_of(a, b),
    ensures
        is_subseq_of(a.skip(1), b),
    decreases b.len(),
{
    assert(b.len() > 0);
    let a1 = a.skip(1);
    if a[0] != b[0] {
        lemma_subseq_drop_head(a, b.skip(1));
    }
    if a1.len() > 0 && a1[0] == b[0] {
        lemma_subseq_drop_head(a1, b.skip(1));
    }
}

/// A subsequence of `b` is a subsequence of `b` with one byte put in front.
proof fn lemma_subseq_prepend(a: Seq<u8>, b: Seq<u8>, h: u8)
    requires
        is_subseq_of(a, b),
    ensures
        is_subseq_of(a, seq![h] + b),
{
    let hb = seq![h] + b;
    assert(hb.skip(1) =~= b);
    if a.len() > 0 {
        if a[0] == h {
            lemma_subseq_drop_head(a, b);
        }
    }
}

/// Matching heads preserve the subsequence relation.
proof fn lemma_subseq_extend_head(a: Seq<u8>, b: Seq<u8>, h: u8)
    requires
        is_subseq_of(a, b),
    ensures
        is_subseq_of(seq![h] + a, seq![h] + b),
{
    assert((seq![h] + a).skip(1) =~= a);
    assert((seq![h] + b).skip(1) =~= b);
}

/// One passthrough byte keeps the subsequence relation: whatever the rest of
/// the scan emits within what follows, this byte's contribution stays within
/// the byte itself plus what follows.
proof fn lemma_ground_tail(b: u8, rest: Seq<u8>, o: Seq<u8>)
    requires
        is_subseq_of(o, held_bytes(ground_mode(b)) + rest),
    ensures
        is_subseq_of(ground_out(b) + o, seq![b] + rest),
{
    if b == ESC_BYTE {
        assert(held_bytes(ground_mode(b)) + rest =~= seq![b] + rest);
        assert(ground_out(b) + o =~= o);
    } else if b == BEL_BYTE {
        assert(held_bytes(ground_mode(b)) + rest =~= rest);
        lemma_subseq_prepend(o, rest, b);
        assert(ground_out(b) + o =~= o);
    } else {
        assert(held_bytes(ground_mode(b)) + rest =~= rest);
        lemma_subseq_extend_head(o, rest, b);
        assert(ground_out(b) + o =~= seq![b] + o);
    }
}

/// The scanner never invents bytes: whatever the state, the passed-through
/// output is some of the held introducer bytes followed by the input, with
/// bytes (title spans, BEL bytes, a pending introducer) deleted, in order.
pub proof fn lemma_scan_output_subseq(st: ScanState, input: Seq<u8>)
    ensures
        is_subseq_of(scan(st, input).output, held_bytes(st.mode) + input),
    decreases input.len(),
{
    if input.len() == 0 {
    } else {
        let b = input[0];
        let rest = input.skip(1);
        assert(seq![b] + rest =~= input);
        match st.mode {
            ScanMode::Title => {
                let next = if b == BACKSLASH_BYTE || b == BEL_BYTE {
                    ScanState { mode: ScanMode::Ground, title: Seq::empty() }
                } else {
                    ScanState { mode: ScanMode::Title, title: st.title.push(b) }
                };
                lemma_scan_output_subseq(next, rest);
                assert(held_bytes(next.mode) + rest =~= rest);
                lemma_subseq_prepend(scan(next, rest).output, rest, b);
                assert(held_bytes(st.mode) + input =~= input);
            },
            ScanMode::Ground => {
                let next = ScanState { mode: ground_mode(b), title: st.title };
                lemma_scan_output_subseq(next, rest);
                lemma_ground_tail(b, rest, scan(next, rest).output);
                assert(held_bytes(st.mode) + input =~= input);
            },
            ScanMode::SawEsc => {
                if b == OSC_BYTE {
                    let next = ScanState { mode: ScanMode::SawEscBracket, title: st.title };
                    lemma_scan_output_subseq(next, rest);
                    assert(held_bytes(next.mode) + rest =~= held_bytes(st.mode) + input);
                } else {
                    let next = ScanState { mode: ground_mode(b), title: st.title };
                    lemma_scan_output_subseq(next, rest);
                    lemma_ground_tail(b, rest, scan(next, rest).output);
                    lemma_subseq_extend_head(ground_out(b) + scan(next, rest).output, seq![b]
                        + rest, ESC_BYTE);
                    assert(seq![ESC_BYTE] + (ground_out(b) + scan(next, rest).output)
                        =~= seq![ESC_BYTE] + ground_out(b) + scan(next, rest).output);
                    assert(seq![ESC_BYTE] + (seq![b] + rest) =~= held_bytes(st.mode) + input);
                }
            },
            ScanMode::SawEscBracket => {
                if b == TITLE_CMD_BYTE {
                    let next = ScanState { mode: ScanMode::SawEscBracketZero, title: st.title };
                    lemma_scan_output_subseq(next, rest);
                    assert(held_bytes(next.mode) + rest =~= held_bytes(st.mode) + input);
                } else {
                    let next = ScanState { mode: ground_mode(b), title: st.title };
                    lemma_scan_output_subseq(next, rest);
                    lemma_ground_tail(b, rest, scan(next, rest).output);
                    lemma_subseq_extend_head(ground_out(b) + scan(next, rest).output, seq![b]
                        + rest, OSC_BYTE);
                    lemma_subseq_extend_head(seq![OSC_BYTE] + (ground_out(b) + scan(
                        next,
                        rest,
                    ).output), seq![OSC_BYTE] + (seq![b] + rest), ESC_BYTE);
                    assert(seq![ESC_BYTE] + (seq![OSC_BYTE] + (ground_out(b) + scan(
                        next,
                        rest,
                    ).output)) =~= seq![ESC_BYTE, OSC_BYTE] + ground_out(b) + scan(
                        next,
                        rest,
                    ).output);
                    assert(seq![ESC_BYTE] + (seq![OSC_BYTE] + (seq![b] + rest)) =~= held_bytes(
                        st.mode,
                    ) + input);
                }
            },
            ScanMode::SawEscBracketZero => {
                if b == SEP_BYTE {
                    let next = ScanState { mode: ScanMode::Title, title: Seq::empty() };
                    let o = scan(next, rest).output;
                    lemma_scan_output_subseq(next, rest);
                    assert(held_bytes(next.mode) + rest =~= rest);
                    lemma_subseq_prepend(o, rest, b);
                    lemma_subseq_prepend(o, seq![b] + rest, TITLE_CMD_BYTE);
                    lemma_subseq_prepend(o, seq![TITLE_CMD_BYTE] + (seq![b] + rest), OSC_BYTE);
                    lemma_subseq_prepend(
                        o,
                        seq![OSC_BYTE] + (seq![TITLE_CMD_BYTE] + (seq![b] + rest)),
                        ESC_BYTE,
                    );
                    assert(seq![ESC_BYTE] + (seq![OSC_BYTE] + (seq![TITLE_CMD_BYTE] + (seq![b]
                        + rest))) =~= held_bytes(st.mode) + input);
                } else {
                    let next = ScanState { mode: ground_mode(b), title: st.title };
                    lemma_scan_output_subseq(next, rest);
                    lemma_ground_tail(b, rest, scan(next, rest).output);
                    lemma_subseq_extend_head(ground_out(b) + scan(next, rest).output, seq![b]
                        + rest, TITLE_CMD_BYTE);
                    lemma_subseq_extend_head(seq![TITLE_CMD_BYTE] + (ground_out(b) + scan(
                        next,
                        rest,
                    ).output), seq![TITLE_CMD_BYTE] + (seq![b] + rest), OSC_BYTE);
                    lemma_subseq_extend_head(seq![OSC_BYTE] + (seq![TITLE_CMD_BYTE] + (ground_out(
                        b,
                    ) + scan(next, rest).output)), seq![OSC_BYTE] + (seq![TITLE_CMD_BYTE]
                        + (seq![b] + rest)), ESC_BYTE);
                    assert(seq![ESC_BYTE] + (seq![OSC_BYTE] + (seq![TITLE_CMD_BYTE] + (ground_out(
                        b,
                    ) + scan(next, rest).output))) =~= seq![ESC_BYTE, OSC_BYTE, TITLE_CMD_BYTE]
                        + ground_out(b) + scan(next, rest).output);
                    assert(seq![ESC_BYTE] + (seq![OSC_BYTE] + (seq![TITLE_CMD_BYTE] + (seq![b]
                        + rest))) =~= held_bytes(st.mode) + input);
                }
            },
        }
    }
}

/// A chunk with no ESC and no BEL byte reaches the output untouched when the
/// scanner is in passthrough mode: no bytes lost, no titles, state unchanged.
pub proof fn lemma_scan_passthrough(st: ScanState, input: Seq<u8>)
    requires
        st.mode == ScanMode::Ground,
        forall|i: int| 0 <= i < input.len() ==> input[i] != ESC_BYTE && input[i] != BEL_BYTE,
    ensures
        scan(st, input).state == st,
        scan(st, input).output == input,
        scan(st, input).titles == Seq::<Seq<u8>>::empty(),
    decreases input.len(),
{
    if input.len() == 0 {
    } else {
        lemma_scan_passthrough(st, input.skip(1));
        assert(seq![input[0]] + input.skip(1) =~= input);
    }
}

/// How many ASCII BEL bytes the sequence holds.
pub open spec fn bel_count(s: Seq<u8>) -> nat
    decreases s.len(),
{
    if s.len() == 0 {
        0
    } else {
        bel_count(s.drop_last()) + if s.last() == BEL_BYTE {
            1nat
        } else {
            0nat
        }
    }
}

/// Count the ASCII BEL bytes of the chunk; the pump rings the bell once per
/// BEL byte, immediately and independently of title capture and batching.
pub fn count_bel(chunk: &[u8]) -> (r: usize)
    ensures
        r == bel_count(chunk@),
{
    let mut count: usize = 0;
    let mut i: usize = 0;
    proof {
        assert(chunk@.take(0) =~= Seq::<u8>::empty());
    }
    while i < chunk.len()
        invariant
            i <= chunk@.len(),
            count == bel_count(chunk@.take(i as int)),
            count <= i,
        decreases chunk@.len() - i,
    {
        proof {
            assert(chunk@.take(i + 1).drop_last() =~= chunk@.take(i as int));
            assert(chunk@.take(i + 1).last() == chunk@[i as int]);
        }
        if chunk[i] == BEL_BYTE {
            count = count + 1;
        }
        i = i + 1;
    }
    proof {
        assert(chunk@.take(i as int) =~= chunk@);
    }
    count
}

} // verus!
