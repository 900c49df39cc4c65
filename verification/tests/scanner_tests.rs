use termillion::scanner::{count_bel, TitleScanner};

fn scan_all(chunks: &[&[u8]]) -> (Vec<u8>, Vec<Vec<u8>>) {
    let mut scanner = TitleScanner::new();
    let mut out: Vec<u8> = Vec::new();
    let mut titles: Vec<Vec<u8>> = Vec::new();
    for chunk in chunks {
        titles.extend(scanner.scan_chunk(chunk, &mut out));
    }
    (out, titles)
}

#[test]
fn plain_bytes_pass_through() {
    let (out, titles) = scan_all(&[b"hello world"]);
    assert_eq!(out, b"hello world".to_vec());
    assert!(titles.is_empty());
}

#[test]
fn bel_bytes_are_stripped_from_output() {
    let (out, titles) = scan_all(&[b"a\x07b", b"\x07\x07c"]);
    assert_eq!(out, b"abc".to_vec());
    assert!(titles.is_empty());
}

#[test]
fn title_sequence_is_stripped_and_captured() {
    let (out, titles) = scan_all(&[b"\x1b]0;My Title\x07"]);
    assert_eq!(out, Vec::<u8>::new());
    assert_eq!(titles, vec![b"My Title".to_vec()]);
}

#[test]
fn bytes_around_title_are_kept() {
    let (out, titles) = scan_all(&[b"before\x1b]0;T\x07after"]);
    assert_eq!(out, b"beforeafter".to_vec());
    assert_eq!(titles, vec![b"T".to_vec()]);
}

#[test]
fn backslash_also_terminates_title() {
    let (out, titles) = scan_all(&[b"\x1b]0;abc\\xyz"]);
    assert_eq!(out, b"xyz".to_vec());
    assert_eq!(titles, vec![b"abc".to_vec()]);
}

#[test]
fn title_capture_survives_chunk_boundary() {
    let (out, titles) = scan_all(&[b"\x1b]0;My ", b"Title\x07ok"]);
    assert_eq!(out, b"ok".to_vec());
    assert_eq!(titles, vec![b"My Title".to_vec()]);
}

#[test]
fn introducer_split_across_chunks_is_recognized() {
    // The scanner holds its progress through `ESC ] 0 ;` in its state, so
    // the introducer is recognized at every split point.
    for chunks in [
        [&b"\x1b"[..], &b"]0;X\x07"[..]],
        [&b"\x1b]"[..], &b"0;X\x07"[..]],
        [&b"\x1b]0"[..], &b";X\x07"[..]],
        [&b"\x1b]0;"[..], &b"X\x07"[..]],
    ] {
        let (out, titles) = scan_all(&chunks);
        assert_eq!(out, Vec::<u8>::new(), "split {chunks:?}");
        assert_eq!(titles, vec![b"X".to_vec()], "split {chunks:?}");
    }
}

#[test]
fn failed_introducer_across_chunks_is_released() {
    // Held introducer bytes that turn out not to open a title come back out.
    let (out, titles) = scan_all(&[b"\x1b]", b"x"]);
    assert_eq!(out, b"\x1b]x".to_vec());
    assert!(titles.is_empty());
}

#[test]
fn other_osc_commands_pass_through() {
    // Not a title introducer: the held `ESC ]` is released; the terminating
    // BEL still never reaches the output.
    let (out, titles) = scan_all(&[b"\x1b]2;not a title\x07"]);
    assert_eq!(out, b"\x1b]2;not a title".to_vec());
    assert!(titles.is_empty());
}

#[test]
fn empty_title_is_reported() {
    let (out, titles) = scan_all(&[b"\x1b]0;\x07"]);
    assert_eq!(out, Vec::<u8>::new());
    assert_eq!(titles, vec![Vec::<u8>::new()]);
}

#[test]
fn trailing_escape_is_held_until_decided() {
    // A chunk ending in ESC leaves the byte pending; the next chunk decides.
    let mut scanner = TitleScanner::new();
    let mut out: Vec<u8> = Vec::new();
    scanner.scan_chunk(b"abc\x1b", &mut out);
    assert_eq!(out, b"abc".to_vec());
    scanner.scan_chunk(b"d", &mut out);
    assert_eq!(out, b"abc\x1bd".to_vec());
}

#[test]
fn restarted_escape_releases_the_first() {
    // ESC ESC ] 0 ; — the first ESC is released, the second opens the title.
    let (out, titles) = scan_all(&[b"\x1b\x1b]0;T\x07"]);
    assert_eq!(out, b"\x1b".to_vec());
    assert_eq!(titles, vec![b"T".to_vec()]);
}

#[test]
fn bel_counting_is_per_byte() {
    assert_eq!(count_bel(b"ding\x07dong"), 1);
    assert_eq!(count_bel(b"\x07\x07"), 2);
    assert_eq!(count_bel(b"\x1b]0;t\x07"), 1);
    assert_eq!(count_bel(b"quiet"), 0);
    assert_eq!(count_bel(b""), 0);
}
