use terax::output::{
    append_output, exit_code, flush_step, overflow_notice, take_tail, FlushAction, MAX_PENDING,
    READ_BUF,
};

const NOTICE: &[u8] = b"\x1bc\x1b[2m[terax: dropped output due to backpressure]\x1b[0m\r\n";

#[test]
fn notice_bytes() {
    assert_eq!(overflow_notice(), NOTICE.to_vec());
}

#[test]
fn append_below_limit_keeps_everything() {
    let mut pending = b"abc".to_vec();
    append_output(&mut pending, b"def");
    assert_eq!(pending, b"abcdef".to_vec());
}

#[test]
fn append_exactly_at_limit_keeps_everything() {
    let mut pending = vec![1u8; MAX_PENDING - 4];
    append_output(&mut pending, &[2u8; 4]);
    assert_eq!(pending.len(), MAX_PENDING);
    assert_eq!(&pending[MAX_PENDING - 4..], &[2u8; 4]);
}

#[test]
fn append_past_limit_drops_pending() {
    let mut pending = vec![1u8; MAX_PENDING - 4];
    append_output(&mut pending, &[2u8; 5]);
    let mut expected = NOTICE.to_vec();
    expected.extend_from_slice(&[2u8; 5]);
    assert_eq!(pending, expected);
}

#[test]
fn pending_never_exceeds_limit() {
    let mut pending = Vec::new();
    let chunk = vec![7u8; READ_BUF];
    for _ in 0..(MAX_PENDING / READ_BUF + 3) {
        append_output(&mut pending, &chunk);
        assert!(pending.len() <= MAX_PENDING);
        assert_eq!(&pending[pending.len() - READ_BUF..], &chunk[..]);
    }
}

#[test]
fn flush_sends_everything_pending() {
    let mut pending = b"hello".to_vec();
    match flush_step(&mut pending, false) {
        FlushAction::Send(out) => assert_eq!(out, b"hello".to_vec()),
        _ => panic!("expected Send"),
    }
    assert!(pending.is_empty());
}

#[test]
fn flush_sends_before_stopping() {
    let mut pending = b"x".to_vec();
    assert!(matches!(flush_step(&mut pending, true), FlushAction::Send(_)));
    assert!(matches!(flush_step(&mut pending, true), FlushAction::Stop));
}

#[test]
fn flush_waits_when_idle() {
    let mut pending = Vec::new();
    assert!(matches!(flush_step(&mut pending, false), FlushAction::Wait));
    assert!(pending.is_empty());
}

#[test]
fn tail_is_taken_once() {
    let mut pending = b"bye".to_vec();
    assert_eq!(take_tail(&mut pending), Some(b"bye".to_vec()));
    assert_eq!(take_tail(&mut pending), None);
}

#[test]
fn exit_code_defaults_to_minus_one() {
    assert_eq!(exit_code(Some(Some(0))), 0);
    assert_eq!(exit_code(Some(Some(3))), 3);
    assert_eq!(exit_code(Some(None)), -1);
    assert_eq!(exit_code(None), -1);
}

#[test]
fn stream_delivers_reads_in_order() {
    let reads: Vec<Vec<u8>> = vec![b"ls\r\n".to_vec(), b"bin etc".to_vec(), b" usr\r\n$ ".to_vec()];
    let mut pending = Vec::new();
    let mut received = Vec::new();
    for (i, chunk) in reads.iter().enumerate() {
        append_output(&mut pending, chunk);
        if i % 2 == 0 {
            if let FlushAction::Send(out) = flush_step(&mut pending, false) {
                received.extend(out);
            }
        }
    }
    if let Some(tail) = take_tail(&mut pending) {
        received.extend(tail);
    }
    assert_eq!(received, reads.concat());
}

#[test]
fn stream_overflow_replaces_only_unsent_bytes() {
    let mut pending = Vec::new();
    let mut received = Vec::new();
    append_output(&mut pending, b"early");
    if let FlushAction::Send(out) = flush_step(&mut pending, false) {
        received.extend(out);
    }
    let big = vec![9u8; READ_BUF];
    for _ in 0..(MAX_PENDING / READ_BUF) {
        append_output(&mut pending, &big);
    }
    append_output(&mut pending, b"last");
    if let Some(tail) = take_tail(&mut pending) {
        received.extend(tail);
    }
    let mut expected = b"early".to_vec();
    expected.extend_from_slice(NOTICE);
    expected.extend_from_slice(b"last");
    assert_eq!(received, expected);
}
