use dispipe::framing::{extract_frame, FrameBuffer, MAX_FRAME, NEWLINE};

#[test]
fn frame_ends_at_first_newline() {
    let input = b"hello\nworld".to_vec();
    let frame = extract_frame(&input).expect("stream holds a frame");
    assert_eq!(frame, b"hello\n".to_vec());
}

#[test]
fn frame_of_lone_newline() {
    let input = vec![NEWLINE];
    let frame = extract_frame(&input).expect("stream holds a frame");
    assert_eq!(frame, vec![NEWLINE]);
}

#[test]
fn incomplete_stream_yields_no_frame() {
    let input = b"abc".to_vec();
    assert!(extract_frame(&input).is_none());
}

#[test]
fn empty_stream_yields_no_frame() {
    let input: Vec<u8> = Vec::new();
    assert!(extract_frame(&input).is_none());
}

#[test]
fn cap_truncates_stream_without_newline() {
    let mut input = vec![b'x'; MAX_FRAME];
    input.extend_from_slice(b"more");
    let frame = extract_frame(&input).expect("cap completes the frame");
    assert_eq!(frame.len(), MAX_FRAME);
    assert_eq!(frame, vec![b'x'; MAX_FRAME]);
}

#[test]
fn newline_exactly_at_cap_is_kept() {
    let mut input = vec![b'x'; MAX_FRAME - 1];
    input.push(NEWLINE);
    let frame = extract_frame(&input).expect("stream holds a frame");
    assert_eq!(frame.len(), MAX_FRAME);
    assert_eq!(*frame.last().unwrap(), NEWLINE);
}

#[test]
fn overlong_write_loses_remainder() {
    // A writer sends 2001 bytes and no newline: one frame of exactly
    // MAX_FRAME bytes comes out, and the leftover byte alone never forms a
    // frame on the next cycle.
    let input = vec![b'a'; MAX_FRAME + 1];
    let frame = extract_frame(&input).expect("cap completes the frame");
    assert_eq!(frame, vec![b'a'; MAX_FRAME]);
    let remainder = vec![b'a'; 1];
    assert!(extract_frame(&remainder).is_none());
}

#[test]
fn buffer_completes_on_newline() {
    let mut buffer = FrameBuffer::new();
    assert!(!buffer.push(b'h'));
    assert!(!buffer.push(b'i'));
    assert!(buffer.push(NEWLINE));
    assert_eq!(buffer.take(), b"hi\n".to_vec());
}

#[test]
fn buffer_completes_at_cap() {
    let mut buffer = FrameBuffer::new();
    for _ in 0..MAX_FRAME - 1 {
        assert!(!buffer.push(b'a'));
    }
    assert!(buffer.push(b'a'));
    assert_eq!(buffer.take().len(), MAX_FRAME);
}

#[test]
fn buffer_agrees_with_extract() {
    let input = b"one line\nnext".to_vec();
    let expected = extract_frame(&input).expect("stream holds a frame");
    let mut buffer = FrameBuffer::new();
    let mut got = None;
    for &byte in &input {
        if buffer.push(byte) {
            got = Some(buffer.take());
            break;
        }
    }
    assert_eq!(got.expect("buffer completes"), expected);
}
