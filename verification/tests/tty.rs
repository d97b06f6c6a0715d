use rocker::tty::{decode_line, encode_frame, finish_line, Tty, TtyLine};

fn frame(tag: u8, payload: &[u8]) -> Vec<u8> {
    let mut bytes = vec![tag, 0, 0, 0];
    bytes.extend_from_slice(&(payload.len() as u32).to_be_bytes());
    bytes.extend_from_slice(payload);
    bytes
}

fn stream(frames: &[(u8, &str)]) -> Vec<u8> {
    let mut bytes = Vec::new();
    for (tag, text) in frames {
        bytes.extend(frame(*tag, text.as_bytes()));
    }
    bytes
}

fn out(text: &str) -> TtyLine {
    TtyLine::StdOut(text.to_string())
}

fn err(text: &str) -> TtyLine {
    TtyLine::StdErr(text.to_string())
}

#[test]
fn interlaced_frames_keep_their_order() {
    let bytes = stream(&[(1, "out1"), (2, "err1"), (1, "out2")]);
    let tty = Tty::new(&bytes);
    assert_eq!(tty.lines, vec![out("out1"), err("err1"), out("out2")]);
}

#[test]
fn empty_stream_gives_no_lines() {
    let tty = Tty::new(&[]);
    assert!(tty.lines.is_empty());
}

#[test]
fn stream_cut_within_a_header_keeps_the_frames_before() {
    let mut bytes = stream(&[(1, "first"), (2, "second")]);
    bytes.extend_from_slice(&[1, 0, 0, 0, 0]);
    let tty = Tty::new(&bytes);
    assert_eq!(tty.lines, vec![out("first"), err("second")]);
}

#[test]
fn fewer_than_eight_bytes_are_no_frame() {
    for len in 1..8 {
        let bytes = vec![1u8; len];
        assert!(Tty::new(&bytes).lines.is_empty());
    }
}

#[test]
fn stream_cut_within_a_payload_keeps_the_frames_before() {
    let mut bytes = stream(&[(1, "first")]);
    let cut = frame(1, b"never complete");
    bytes.extend_from_slice(&cut[..cut.len() - 1]);
    let tty = Tty::new(&bytes);
    assert_eq!(tty.lines, vec![out("first")]);
}

#[test]
fn header_without_its_payload_gives_no_line() {
    let bytes = vec![1, 0, 0, 0, 0, 0, 0, 5];
    assert!(Tty::new(&bytes).lines.is_empty());
}

#[test]
fn unknown_tag_stops_decoding() {
    let bytes = stream(&[(1, "kept"), (9, "dropped"), (1, "never seen")]);
    let tty = Tty::new(&bytes);
    assert_eq!(tty.lines, vec![out("kept")]);
}

#[test]
fn stdin_frame_stops_decoding() {
    let bytes = stream(&[(2, "kept"), (0, "typed"), (1, "never seen")]);
    let tty = Tty::new(&bytes);
    assert_eq!(tty.lines, vec![err("kept")]);
}

#[test]
fn empty_payload_is_an_empty_line() {
    let bytes = stream(&[(1, ""), (2, "")]);
    let tty = Tty::new(&bytes);
    assert_eq!(tty.lines, vec![out(""), err("")]);
}

#[test]
fn reserved_header_bytes_are_ignored() {
    let mut bytes = frame(1, b"text");
    bytes[1] = 7;
    bytes[2] = 8;
    bytes[3] = 9;
    assert_eq!(Tty::new(&bytes).lines, vec![out("text")]);
}

#[test]
fn payload_length_is_big_endian() {
    let payload = "x".repeat(300);
    let mut bytes = vec![1, 0, 0, 0, 0, 0, 1, 44];
    bytes.extend_from_slice(payload.as_bytes());
    bytes.extend(frame(2, b"after"));
    let tty = Tty::new(&bytes);
    assert_eq!(tty.lines, vec![out(&payload), err("after")]);
}

#[test]
fn payload_length_uses_all_four_bytes() {
    let payload = "y".repeat(65_536 + 256 + 1);
    let mut bytes = vec![2, 0, 0, 0, 0, 1, 1, 1];
    bytes.extend_from_slice(payload.as_bytes());
    let tty = Tty::new(&bytes);
    assert_eq!(tty.lines, vec![err(&payload)]);
}

#[test]
fn declared_length_beyond_the_stream_gives_no_line() {
    let mut bytes = vec![1, 0, 0, 0, 0xff, 0xff, 0xff, 0xff];
    bytes.extend_from_slice(b"short");
    assert!(Tty::new(&bytes).lines.is_empty());
}

#[test]
fn trailing_whitespace_is_trimmed() {
    let bytes = stream(&[(1, "hello world \t\r\n"), (2, "  indented\n")]);
    let tty = Tty::new(&bytes);
    assert_eq!(tty.lines, vec![out("hello world"), err("  indented")]);
}

#[test]
fn payload_of_whitespace_is_an_empty_line() {
    let bytes = stream(&[(1, " \n\n")]);
    assert_eq!(Tty::new(&bytes).lines, vec![out("")]);
}

#[test]
fn unicode_whitespace_is_trimmed() {
    assert_eq!(finish_line("a\u{85}\u{a0}\u{1680}\u{2000}\u{200a}\u{2028}\u{2029}"), "a");
    assert_eq!(finish_line("b\u{202f}\u{205f}\u{3000}\u{0b}\u{0c}"), "b");
}

#[test]
fn zero_width_space_is_no_whitespace() {
    assert_eq!(finish_line("a\u{200b}"), "a\u{200b}");
    assert_eq!(finish_line("a\u{180e}"), "a\u{180e}");
    assert_eq!(finish_line("a\u{feff}"), "a\u{feff}");
}

#[test]
fn invalid_utf8_is_replaced() {
    assert_eq!(decode_line(&[b'a', 0xff, b'b']), "a\u{fffd}b");
    let tty = Tty::new(&frame(1, &[0xc3, 0x28, b'\n']));
    assert_eq!(tty.lines, vec![out("\u{fffd}(")]);
}

#[test]
fn valid_utf8_is_decoded() {
    let tty = Tty::new(&stream(&[(1, "gr\u{fc}\u{df}e \u{2192} \u{1f980}\n")]));
    assert_eq!(tty.lines, vec![out("gr\u{fc}\u{df}e \u{2192} \u{1f980}")]);
}

#[test]
fn line_text_is_the_same_for_both_streams() {
    assert_eq!(out("text").to_string(), "text");
    assert_eq!(err("text").to_string(), "text");
}

#[test]
fn frame_is_header_then_payload() {
    assert_eq!(encode_frame(1, b"abc"), vec![1, 0, 0, 0, 0, 0, 0, 3, b'a', b'b', b'c']);
    assert_eq!(encode_frame(2, b""), vec![2, 0, 0, 0, 0, 0, 0, 0]);
    let long = vec![7u8; 0x01_02_03];
    let bytes = encode_frame(0, &long);
    assert_eq!(&bytes[..8], &[0, 0, 0, 0, 0, 1, 2, 3]);
    assert_eq!(bytes.len(), 8 + long.len());
    assert_eq!(encode_frame(1, b"abc"), frame(1, b"abc"));
}

#[test]
fn encoded_frames_decode_to_their_lines() {
    let mut bytes = encode_frame(1, b"out1");
    bytes.extend(encode_frame(2, b"err1"));
    bytes.extend(encode_frame(1, b"out2"));
    assert_eq!(Tty::new(&bytes).lines, vec![out("out1"), err("err1"), out("out2")]);
    let mut stopped = encode_frame(2, b"kept");
    stopped.extend(encode_frame(0, b"typed"));
    stopped.extend(encode_frame(1, b"lost"));
    assert_eq!(Tty::new(&stopped).lines, vec![err("kept")]);
}
