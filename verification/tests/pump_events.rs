use pty_core::pump::{OutputPump, Phase, INDETERMINATE_EXIT};

#[test]
fn data_events_then_one_exit_event() {
    let mut pump = OutputPump::new("s1".to_string());
    assert_eq!(pump.current_phase(), Phase::Reading);

    let first = pump.on_chunk(b"hello ");
    assert_eq!(first.session_id, "s1");
    assert_eq!(first.data, "hello ");

    let second = pump.on_chunk(b"world");
    assert_eq!(second.session_id, "s1");
    assert_eq!(second.data, "world");

    pump.on_stream_end();
    assert_eq!(pump.current_phase(), Phase::Draining);

    let exit = pump.retire(Some(3));
    assert_eq!(exit.session_id, "s1");
    assert_eq!(exit.code, 3);
    assert_eq!(pump.current_phase(), Phase::Retired);
}

#[test]
fn invalid_bytes_are_replaced_never_fatal() {
    let mut pump = OutputPump::new("s1".to_string());
    let ev = pump.on_chunk(&[0xff]);
    assert_eq!(ev.data, "\u{FFFD}");
    let ev = pump.on_chunk(b"hi\xffzz");
    assert_eq!(ev.data, "hi\u{FFFD}zz");
}

#[test]
fn indeterminate_status_uses_sentinel_code() {
    let mut pump = OutputPump::new("s9".to_string());
    pump.on_stream_end();
    let exit = pump.retire(None);
    assert_eq!(exit.code, -1);
    assert_eq!(exit.code, INDETERMINATE_EXIT);
}

#[test]
fn read_error_path_retires_like_graceful_close() {
    // a read error and a zero-length read take the same transition
    let mut pump = OutputPump::new("s2".to_string());
    let ev = pump.on_chunk(b"partial");
    assert_eq!(ev.data, "partial");
    pump.on_stream_end();
    let exit = pump.retire(Some(0));
    assert_eq!(exit.session_id, "s2");
    assert_eq!(exit.code, 0);
}
