use termillion::events::PtyOutputEvent;
use termillion::pump::OutputPump;

fn output_payload(e: &PtyOutputEvent) -> Option<Vec<u8>> {
    match e {
        PtyOutputEvent::Output(v) => Some(v.clone()),
        _ => None,
    }
}

#[test]
fn chunk_flushes_once_timeout_elapsed() {
    let mut pump = OutputPump::new(0, 10);
    // 5 ms after the last send: too early, bytes stay pending.
    let events = pump.handle_chunk(b"abc", 5);
    assert!(events.is_empty());
    // 12 ms after the last send: the whole batch goes out as one event.
    let events = pump.handle_chunk(b"def", 12);
    assert_eq!(events, vec![PtyOutputEvent::Output(b"abcdef".to_vec())]);
}

#[test]
fn empty_batch_never_flushes() {
    let mut pump = OutputPump::new(0, 10);
    let events = pump.handle_chunk(b"", 100);
    assert!(events.is_empty());
    assert_eq!(pump.force_flush(200), None);
}

#[test]
fn force_flush_sends_pending_bytes() {
    let mut pump = OutputPump::new(0, 1000);
    let events = pump.handle_chunk(b"tail", 1);
    assert!(events.is_empty());
    let e = pump.force_flush(2).expect("pending bytes must be flushed");
    assert_eq!(e, PtyOutputEvent::Output(b"tail".to_vec()));
    assert_eq!(pump.force_flush(3), None);
}

#[test]
fn bell_title_output_come_in_order() {
    // Two BEL bytes in the raw chunk (the standalone one and the title
    // terminator): two bell events; neither byte reaches the output, nor
    // does the title span.
    let mut pump = OutputPump::new(0, 0);
    let events = pump.handle_chunk(b"x\x07y\x1b]0;Name\x07z", 1);
    assert_eq!(
        events,
        vec![
            PtyOutputEvent::Bell,
            PtyOutputEvent::Bell,
            PtyOutputEvent::Title { title: "Name".to_string() },
            PtyOutputEvent::Output(b"xyz".to_vec()),
        ]
    );
}

#[test]
fn every_bel_byte_rings_and_is_stripped() {
    // A chunk of two BELs: two bell events and no output event at all —
    // BEL bytes are excluded from the output stream.
    let mut pump = OutputPump::new(0, 0);
    let events = pump.handle_chunk(b"\x07\x07", 1);
    assert_eq!(events, vec![PtyOutputEvent::Bell, PtyOutputEvent::Bell]);
    assert_eq!(pump.force_flush(2), None);
}

#[test]
fn title_split_across_chunks_is_one_event() {
    let mut pump = OutputPump::new(0, 0);
    let events = pump.handle_chunk(b"\x1b]0;Sp", 1);
    assert_eq!(events, Vec::<PtyOutputEvent>::new());
    let events = pump.handle_chunk(b"lit\x07done", 2);
    assert_eq!(
        events,
        vec![
            PtyOutputEvent::Bell,
            PtyOutputEvent::Title { title: "Split".to_string() },
            PtyOutputEvent::Output(b"done".to_vec()),
        ]
    );
}

#[test]
fn title_span_produces_no_output_bytes() {
    // A chunk holding exactly one title sequence: one title event, no output
    // event at all (the bell comes from the BEL terminator byte itself).
    let mut pump = OutputPump::new(0, 0);
    let events = pump.handle_chunk(b"\x1b]0;My Title\x07", 1);
    assert_eq!(
        events,
        vec![PtyOutputEvent::Bell, PtyOutputEvent::Title { title: "My Title".to_string() }]
    );
}

#[test]
fn malformed_title_bytes_drop_that_update() {
    let mut pump = OutputPump::new(0, 0);
    let events = pump.handle_chunk(b"\x1b]0;ok\x07\x1b]0;\xff\xfe\x07\x1b]0;ok2\x07", 1);
    assert_eq!(
        events,
        vec![
            PtyOutputEvent::Bell,
            PtyOutputEvent::Bell,
            PtyOutputEvent::Bell,
            PtyOutputEvent::Title { title: "ok".to_string() },
            PtyOutputEvent::Title { title: "ok2".to_string() },
        ]
    );
}

#[test]
fn utf8_title_is_decoded() {
    let mut pump = OutputPump::new(0, 0);
    let events = pump.handle_chunk("\x1b]0;caf\u{e9}\x07".as_bytes(), 1);
    assert_eq!(
        events,
        vec![PtyOutputEvent::Bell, PtyOutputEvent::Title { title: "caf\u{e9}".to_string() }]
    );
}

#[test]
fn outputs_concatenate_to_scanned_prefix() {
    // Feed chunks under a long timeout, flushing only sometimes: everything
    // emitted, joined in order, is a prefix of the scanned bytes, and a
    // final force flush closes the gap.
    let mut pump = OutputPump::new(0, 50);
    let mut emitted: Vec<u8> = Vec::new();
    let chunks: [&[u8]; 4] = [b"one ", b"two ", b"three ", b"four"];
    let mut now = 0u64;
    for chunk in chunks {
        now += 30;
        for e in pump.handle_chunk(chunk, now) {
            if let Some(v) = output_payload(&e) {
                emitted.extend_from_slice(&v);
            }
        }
        let all = b"one two three four";
        assert!(all.starts_with(&emitted[..]));
    }
    if let Some(e) = pump.force_flush(now + 1) {
        if let Some(v) = output_payload(&e) {
            emitted.extend_from_slice(&v);
        }
    }
    assert_eq!(emitted, b"one two three four".to_vec());
}
