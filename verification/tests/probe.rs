use rizzo_pii::address::socket_address;
use rizzo_pii::probe::{
    is_our_backend, probe_request, Probe, ProbePhase, CONNECT_TIMEOUT_MS, READ_TIMEOUT_MS,
};

fn receiving() -> Probe {
    let mut probe = Probe::start();
    assert_eq!(probe.phase, ProbePhase::Resolve);
    probe.resolved(true);
    assert_eq!(probe.phase, ProbePhase::Connect);
    probe.connected(true);
    assert_eq!(probe.phase, ProbePhase::Send);
    probe.sent(true);
    assert_eq!(probe.phase, ProbePhase::Receive);
    probe
}

const REPLY: &[u8] = b"HTTP/1.1 200 OK\r\n\r\n{\"config_path\": \"C:\\\\x\"}";

#[test]
fn request_asks_for_the_configuration() {
    assert_eq!(
        probe_request(&socket_address("127.0.0.1", 5005)),
        "GET /config HTTP/1.1\r\nHost: 127.0.0.1:5005\r\nConnection: close\r\n\r\n"
    );
    assert_eq!(CONNECT_TIMEOUT_MS, 500);
    assert_eq!(READ_TIMEOUT_MS, 2000);
}

#[test]
fn marker_tells_our_backend() {
    assert!(is_our_backend(REPLY));
    assert!(!is_our_backend(b""));
    assert!(!is_our_backend(b"HTTP/1.1 404 Not Found\r\n\r\nconfig path"));
    assert!(!is_our_backend(b"config_pat"));
}

#[test]
fn bytes_that_are_no_text_are_replaced() {
    assert!(is_our_backend(b"\xff\xfeconfig_path\xc3"));
    assert!(is_our_backend(b"\xe2\x82config_path"));
    assert!(!is_our_backend(b"config\xff_path"));
    let samples: [&[u8]; 5] = [b"\xf0\x9f\x98config_path", b"\xffconfig_path", b"c\xc3onfig_path", b"\x80", REPLY];
    for s in samples {
        let in_bytes = s.windows(11).any(|w| w == b"config_path");
        assert_eq!(is_our_backend(s), in_bytes);
        assert_eq!(is_our_backend(s), String::from_utf8_lossy(s).contains("config_path"));
    }
}

#[test]
fn failed_steps_are_not_ours() {
    let mut probe = Probe::start();
    probe.resolved(false);
    assert_eq!(probe.phase, ProbePhase::Finished(false));
    let mut probe = Probe::start();
    probe.resolved(true);
    probe.connected(false);
    assert_eq!(probe.phase, ProbePhase::Finished(false));
    let mut probe = Probe::start();
    probe.resolved(true);
    probe.connected(true);
    probe.sent(false);
    assert_eq!(probe.phase, ProbePhase::Finished(false));
}

#[test]
fn pieces_of_a_reply_do_not_matter() {
    for size in [1usize, 2, 7, 4096] {
        for failed in [false, true] {
            let mut probe = receiving();
            for piece in REPLY.chunks(size) {
                probe.received(Some(piece));
                assert_eq!(probe.phase, ProbePhase::Receive);
            }
            assert_eq!(probe.response, REPLY);
            let end: &[u8] = &[];
            probe.received(if failed { None } else { Some(end) });
            assert_eq!(probe.phase, ProbePhase::Finished(true));
        }
    }
}

#[test]
fn silent_server_is_not_ours() {
    let mut probe = receiving();
    probe.received(None);
    assert_eq!(probe.phase, ProbePhase::Finished(false));
}
