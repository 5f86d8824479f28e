use wsrpc::session::{ReadPoll, WebSocketSession, WritePoll};

#[test]
fn new_session_is_closed_and_empty() {
    let s = WebSocketSession::new();
    assert!(s.closed());
    assert!(!s.is_connected());
    assert_eq!(s.buffered_len(), 0);
}

#[test]
fn new_session_read_is_end_of_stream() {
    let mut s = WebSocketSession::new();
    let mut out = [7u8; 2];
    assert_eq!(s.poll_read(&mut out), ReadPoll::Ready(0));
    assert_eq!(out, [7, 7]);
    assert!(!s.reader_waiting());
}

#[test]
fn new_session_write_writes_nothing() {
    let s = WebSocketSession::new();
    assert!(matches!(s.poll_write(&[1, 2, 3]), WritePoll::Closed));
}

#[test]
fn connected_session_is_open() {
    let s = WebSocketSession::connect();
    assert!(!s.closed());
    assert!(s.is_connected());
    assert_eq!(s.buffered_len(), 0);
}

#[test]
fn read_returns_received_frames_in_order() {
    let mut s = WebSocketSession::connect();
    s.receive(Ok(vec![1, 2]));
    s.receive(Err(anyhow::Error::msg("socket hiccup")));
    s.receive(Ok(vec![3]));
    s.receive(Ok(vec![]));
    s.receive(Ok(vec![4, 5]));
    assert_eq!(s.buffered_len(), 5);
    let mut out = [0u8; 5];
    assert_eq!(s.poll_read(&mut out), ReadPoll::Ready(5));
    assert_eq!(out, [1, 2, 3, 4, 5]);
    assert_eq!(s.buffered_len(), 0);
    let mut again = [9u8; 1];
    assert_eq!(s.poll_read(&mut again), ReadPoll::Pending);
    assert_eq!(again, [9]);
}

#[test]
fn socket_error_changes_nothing() {
    let mut s = WebSocketSession::connect();
    s.receive(Ok(vec![7]));
    s.receive(Err(anyhow::Error::msg("boom")));
    assert_eq!(s.buffered_len(), 1);
    assert!(!s.closed());
}

#[test]
fn shutdown_keeps_buffer_and_reads_zero() {
    let mut s = WebSocketSession::connect();
    s.receive(Ok(vec![10, 20, 30]));
    s.poll_shutdown();
    assert!(s.closed());
    let mut out = [0u8; 2];
    assert_eq!(s.poll_read(&mut out), ReadPoll::Ready(0));
    assert_eq!(out, [0, 0]);
    assert_eq!(s.buffered_len(), 3);
    s.receive(Ok(vec![40]));
    assert!(s.closed());
    assert_eq!(s.buffered_len(), 4);
    assert_eq!(s.poll_read(&mut out), ReadPoll::Ready(0));
}

#[test]
fn shutdown_without_data_is_end_of_stream() {
    let mut s = WebSocketSession::connect();
    assert!(!s.poll_shutdown());
    let mut out = [0u8; 4];
    assert_eq!(s.poll_read(&mut out), ReadPoll::Ready(0));
    assert_eq!(s.poll_read(&mut out), ReadPoll::Ready(0));
}

#[test]
fn partial_read_keeps_the_rest_in_order() {
    let mut s = WebSocketSession::connect();
    s.receive(Ok(vec![1, 2, 3, 4, 5]));
    let mut small = [0u8; 2];
    assert_eq!(s.poll_read(&mut small), ReadPoll::Ready(2));
    assert_eq!(small, [1, 2]);
    assert_eq!(s.buffered_len(), 3);
    s.receive(Ok(vec![6]));
    let mut big = [9u8; 6];
    assert_eq!(s.poll_read(&mut big), ReadPoll::Ready(4));
    assert_eq!(big, [3, 4, 5, 6, 9, 9]);
    assert_eq!(s.buffered_len(), 0);
}

#[test]
fn read_into_empty_buffer_takes_nothing() {
    let mut s = WebSocketSession::connect();
    s.receive(Ok(vec![1]));
    let mut none: [u8; 0] = [];
    assert_eq!(s.poll_read(&mut none), ReadPoll::Ready(0));
    assert_eq!(s.buffered_len(), 1);
}

#[test]
fn pending_reader_is_woken_by_data() {
    let mut s = WebSocketSession::connect();
    let mut out = [0u8; 3];
    assert_eq!(s.poll_read(&mut out), ReadPoll::Pending);
    assert!(s.reader_waiting());
    assert!(!s.receive(Err(anyhow::Error::msg("no data"))));
    assert!(!s.receive(Ok(vec![])));
    assert!(s.reader_waiting());
    assert!(s.receive(Ok(vec![8])));
    assert!(!s.reader_waiting());
    assert!(!s.receive(Ok(vec![9])));
    assert_eq!(s.poll_read(&mut out), ReadPoll::Ready(2));
    assert_eq!(out, [8, 9, 0]);
}

#[test]
fn pending_reader_is_woken_by_shutdown() {
    let mut s = WebSocketSession::connect();
    let mut out = [0u8; 1];
    assert_eq!(s.poll_read(&mut out), ReadPoll::Pending);
    assert!(s.poll_shutdown());
    assert!(!s.reader_waiting());
    assert_eq!(s.poll_read(&mut out), ReadPoll::Ready(0));
}

#[test]
fn write_on_connection_sends_exact_bytes() {
    let s = WebSocketSession::connect();
    match s.poll_write(&[5, 6, 7, 8]) {
        WritePoll::Send(frame) => assert_eq!(frame, vec![5, 6, 7, 8]),
        _ => panic!("expected a frame"),
    }
}

#[test]
fn write_after_shutdown_still_sends_on_connection() {
    let mut s = WebSocketSession::connect();
    s.poll_shutdown();
    match s.poll_write(&[1]) {
        WritePoll::Send(frame) => assert_eq!(frame, vec![1]),
        _ => panic!("expected a frame"),
    }
}

#[test]
fn attach_opens_a_new_session() {
    let mut s = WebSocketSession::new();
    s.receive(Ok(vec![1, 2]));
    s.attach();
    assert!(!s.closed());
    assert!(s.is_connected());
    let mut out = [0u8; 2];
    assert_eq!(s.poll_read(&mut out), ReadPoll::Ready(2));
    assert_eq!(out, [1, 2]);
}
