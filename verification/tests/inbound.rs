use voice_bridge::errors::PlaybackError;
use voice_bridge::frames::{parse_frame, InboundFrame};
use voice_bridge::playback::{consume_frame, consume_frames, PlaybackQueue};

fn audio_frame(bytes: &[u8]) -> String {
    format!("{{\"audio\":\"{}\"}}", base64::encode(bytes))
}

#[test]
fn audio_frame_decodes_to_its_bytes() {
    let frame = audio_frame(b"raw container bytes");
    assert_eq!(
        parse_frame(&frame),
        Ok(InboundFrame::AudioPayload(b"raw container bytes".to_vec()))
    );
}

#[test]
fn message_frame_surfaces_diagnostic_intact() {
    let frame = "{\"message\":\"voice quota exceeded\"}";
    assert_eq!(
        parse_frame(frame),
        Ok(InboundFrame::ServiceError("voice quota exceeded".to_string()))
    );
}

#[test]
fn unknown_frame_shapes_are_ignored() {
    assert_eq!(parse_frame("{\"other\":1}"), Ok(InboundFrame::Other));
    assert_eq!(parse_frame("not json at all"), Ok(InboundFrame::Other));
    assert_eq!(parse_frame("{\"audio\":17}"), Ok(InboundFrame::Other));
}

#[test]
fn invalid_base64_payload_is_fatal() {
    let frame = "{\"audio\":\"!!!not base64!!!\"}";
    assert_eq!(parse_frame(frame), Err(PlaybackError::InvalidPayload));
}

#[test]
fn audio_field_takes_priority_over_message() {
    let frame = format!(
        "{{\"audio\":\"{}\",\"message\":\"ignored\"}}",
        base64::encode(b"x")
    );
    assert_eq!(
        parse_frame(&frame),
        Ok(InboundFrame::AudioPayload(b"x".to_vec()))
    );
}

#[test]
fn segments_queued_in_arrival_order() {
    let frames = vec![
        audio_frame(b"A"),
        audio_frame(b"B"),
        audio_frame(b"C"),
    ];
    let mut queue = PlaybackQueue::new();
    assert_eq!(consume_frames(&mut queue, &frames), Ok(()));
    assert_eq!(queue.len(), 3);
    assert_eq!(queue.segment(0), &b"A".to_vec());
    assert_eq!(queue.segment(1), &b"B".to_vec());
    assert_eq!(queue.segment(2), &b"C".to_vec());
}

#[test]
fn closed_without_frames_completes_with_empty_queue() {
    // A connection that closes right after the handshake delivers no
    // frames: the turn completes with nothing queued and no error.
    let mut queue = PlaybackQueue::new();
    assert_eq!(consume_frames(&mut queue, &Vec::new()), Ok(()));
    assert_eq!(queue.len(), 0);
}

#[test]
fn single_audio_frame_queues_exactly_one_segment() {
    let frames = vec![audio_frame(b"one valid container")];
    let mut queue = PlaybackQueue::new();
    assert_eq!(consume_frames(&mut queue, &frames), Ok(()));
    assert_eq!(queue.len(), 1);
    assert_eq!(queue.segment(0), &b"one valid container".to_vec());
}

#[test]
fn service_error_aborts_turn_and_keeps_earlier_audio() {
    let frames = vec![
        audio_frame(b"first"),
        "{\"message\":\"synthesis failed\"}".to_string(),
        audio_frame(b"never reached"),
    ];
    let mut queue = PlaybackQueue::new();
    assert_eq!(
        consume_frames(&mut queue, &frames),
        Err(PlaybackError::Service("synthesis failed".to_string()))
    );
    assert_eq!(queue.len(), 1);
    assert_eq!(queue.segment(0), &b"first".to_vec());
}

#[test]
fn fatal_frame_leaves_queue_unchanged() {
    let mut queue = PlaybackQueue::new();
    let outcome = consume_frame(&mut queue, "{\"message\":\"boom\"}");
    assert_eq!(outcome, Err(PlaybackError::Service("boom".to_string())));
    assert_eq!(queue.len(), 0);
}

#[test]
fn consume_frame_hands_segment_back_and_records_it() {
    let mut queue = PlaybackQueue::new();
    let frame = audio_frame(b"payload");
    let outcome = consume_frame(&mut queue, &frame);
    assert_eq!(outcome, Ok(Some(b"payload".to_vec())));
    assert_eq!(queue.len(), 1);
    assert_eq!(queue.segment(0), &b"payload".to_vec());

    let ignored = consume_frame(&mut queue, "{\"unrelated\":true}");
    assert_eq!(ignored, Ok(None));
    assert_eq!(queue.len(), 1);
}
