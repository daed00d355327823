use colorlight_rs::build_detect_receiver_ack;
use colorlight_rs::DetectOutcome;
use colorlight_rs::DetectionSession;
use colorlight_rs::MAX_ATTEMPTS;

/// A detect response frame as it would arrive on the wire: 14-byte header
/// with EtherType 0x0805, then the given payload.
fn response_frame(payload: &[u8]) -> Vec<u8> {
    let mut frame = vec![
        0x22, 0x22, 0x33, 0x44, 0x55, 0x66, 0x11, 0x22, 0x33, 0x44, 0x55, 0x66, 0x08, 0x05,
    ];
    frame.extend_from_slice(payload);
    frame
}

/// A valid 24-byte response payload: version 1.2, 256 columns, 512 rows.
fn valid_payload() -> Vec<u8> {
    let mut payload = vec![0u8; 24];
    payload[0] = 0x5A;
    payload[1] = 0x01;
    payload[2] = 0x02;
    payload[20] = 0x01;
    payload[21] = 0x00;
    payload[22] = 0x02;
    payload[23] = 0x00;
    payload
}

/// An unrelated frame (an IPv4 EtherType) that the session must discard.
fn unrelated_frame() -> Vec<u8> {
    let mut frame = vec![0u8; 60];
    frame[12] = 0x08;
    frame[13] = 0x00;
    frame
}

#[test]
fn test_detect_session_match_after_unrelated_traffic() {
    // 99 unrelated frames, then one valid response: the session must
    // consume no more than 100 receive calls, yield the parsed info, and
    // have the driver send exactly one ack.
    let mut traffic: Vec<Vec<u8>> = Vec::new();
    for _ in 0..99 {
        traffic.push(unrelated_frame());
    }
    traffic.push(response_frame(&valid_payload()));

    let mut session = DetectionSession::new();
    let mut receive_calls: u32 = 0;
    let mut acks_sent: u32 = 0;
    let mut result = None;
    for frame in &traffic {
        receive_calls += 1;
        match session.handle_attempt(Some(frame)) {
            DetectOutcome::Pending => continue,
            DetectOutcome::Matched(info) => {
                let ack = build_detect_receiver_ack();
                assert_eq!(ack.len(), 284);
                acks_sent += 1;
                result = Some(info);
                break;
            }
            DetectOutcome::TimedOut => panic!("timed out though a response was pending"),
        }
    }
    assert!(receive_calls <= 100);
    assert_eq!(receive_calls, 100);
    assert_eq!(acks_sent, 1);
    let info = result.expect("no card info returned");
    assert_eq!(info.version_major, 1);
    assert_eq!(info.version_minor, 2);
    assert_eq!(info.pixel_columns, 256);
    assert_eq!(info.pixel_rows, 512);
}

#[test]
fn test_detect_session_timeout_without_match() {
    // A transport that never yields a matching frame: after 100 receive
    // calls the session must report a timeout, and no ack is sent.
    let noise = unrelated_frame();
    let mut session = DetectionSession::new();
    let mut receive_calls: u32 = 0;
    let mut acks_sent: u32 = 0;
    let mut timed_out = false;
    loop {
        receive_calls += 1;
        match session.handle_attempt(Some(&noise)) {
            DetectOutcome::Pending => continue,
            DetectOutcome::Matched(_) => {
                acks_sent += 1;
                break;
            }
            DetectOutcome::TimedOut => {
                timed_out = true;
                break;
            }
        }
    }
    assert!(timed_out);
    assert_eq!(receive_calls, MAX_ATTEMPTS);
    assert_eq!(acks_sent, 0);
}

#[test]
fn test_detect_session_matches_first_frame() {
    let mut session = DetectionSession::new();
    let frame = response_frame(&valid_payload());
    match session.handle_attempt(Some(&frame)) {
        DetectOutcome::Matched(info) => {
            assert_eq!(info.version_major, 1);
            assert_eq!(info.pixel_columns, 256);
        }
        other => panic!("expected a match, got {:?}", other),
    }
    assert_eq!(session.attempts_made(), 1);
}

#[test]
fn test_detect_session_matches_on_last_attempt() {
    // A match on the 100th receive call still succeeds.
    let mut session = DetectionSession::new();
    for _ in 0..99 {
        assert_eq!(session.handle_attempt(None), DetectOutcome::Pending);
    }
    let frame = response_frame(&valid_payload());
    match session.handle_attempt(Some(&frame)) {
        DetectOutcome::Matched(info) => assert_eq!(info.pixel_rows, 512),
        other => panic!("expected a match, got {:?}", other),
    }
}

#[test]
fn test_detect_session_receive_errors_consume_attempts() {
    // A failed receive counts as an attempt like any other miss.
    let mut session = DetectionSession::new();
    for i in 1..=MAX_ATTEMPTS {
        let out = session.handle_attempt(None);
        if i < MAX_ATTEMPTS {
            assert_eq!(out, DetectOutcome::Pending);
        } else {
            assert_eq!(out, DetectOutcome::TimedOut);
        }
        assert_eq!(session.attempts_made(), i);
    }
}

#[test]
fn test_detect_session_ignores_runt_frames() {
    // A frame shorter than the 14-byte Ethernet header can never match.
    let mut session = DetectionSession::new();
    let runt = [0x08u8, 0x05];
    assert_eq!(session.handle_attempt(Some(&runt)), DetectOutcome::Pending);
    assert_eq!(session.attempts_made(), 1);
}

#[test]
fn test_detect_session_short_matching_frame_yields_zero_info() {
    // A frame that matches by EtherType but carries fewer than 24 payload
    // bytes still matches, and parses to the all-zero fallback info.
    let mut session = DetectionSession::new();
    let frame = response_frame(&[0x5A, 0x01]);
    match session.handle_attempt(Some(&frame)) {
        DetectOutcome::Matched(info) => {
            assert_eq!(info.version_major, 0);
            assert_eq!(info.version_minor, 0);
            assert_eq!(info.pixel_columns, 0);
            assert_eq!(info.pixel_rows, 0);
        }
        other => panic!("expected a match, got {:?}", other),
    }
}
