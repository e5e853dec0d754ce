use noema::audio::{
    audio_device_infos, capture_device, capture_settings, pcm_le_bytes, playback_settings, streaming_config,
    streaming_device, voice_stream_target, voice_stream_url, ws_frame_action, ConfigRange, DeviceChoice, DummyAudioCapture,
    DummyAudioPlayer, DummyAudioStreamer, WsAction, WsFrame,
};
use noema::http::{
    asset_blob_hash, asset_headers, asset_response, asset_mime_type, blob_not_found_body, callback_http_response, html_response_text,
    parse_callback_request, split_char, split_once_char, split_whitespace, CALLBACK_SUCCESS_BODY,
};
use noema::vad::{SpeechEvent, VadState, VoiceActivityDetector};
use noema::voice::{
    daemon_voice_emits, join_with_spaces, poll_voice, voice_status, DaemonVoiceEvent, VoiceCoordinator, VoiceEmit,
    VoiceEvent, VoiceStatus,
};

fn s(x: &str) -> String {
    x.to_string()
}

#[test]
fn coordinator_buffers_while_processing() {
    let mut c = VoiceCoordinator::new();
    assert!(!c.is_listening() && !c.is_transcribing() && !c.is_buffering());
    let (msg, errs) = c.process(true, vec![VoiceEvent::Transcription(s("hello")), VoiceEvent::Transcription(s("world"))]);
    assert!(msg.is_none() && errs.is_empty());
    assert!(c.is_buffering());
    assert_eq!(c.buffered_count(), 2);
    let (msg, _) = c.process(false, vec![]);
    assert_eq!(msg, Some(s("hello world")));
    assert_eq!(c.buffered_count(), 0);
}

#[test]
fn coordinator_tracks_status_and_errors() {
    let mut c = VoiceCoordinator::new();
    assert_eq!(voice_status(None), VoiceStatus::Disabled);
    c.process(false, vec![VoiceEvent::ListeningStarted]);
    assert_eq!(voice_status(Some(&c)), VoiceStatus::Listening);
    let (_, errs) = c.process(false, vec![VoiceEvent::Transcribing, VoiceEvent::Error(s("mic lost"))]);
    assert_eq!(errs, vec![s("mic lost")]);
    assert!(!c.is_transcribing() && !c.is_listening());
    c.process(false, vec![VoiceEvent::Transcribing]);
    assert!(c.is_transcribing());
    let poll = poll_voice(&mut c, false, vec![VoiceEvent::Transcription(s("  ")), VoiceEvent::Transcription(s("done"))]);
    assert_eq!(poll.status, VoiceStatus::Transcribing);
    assert_eq!(poll.message, Some(s("done")));
    assert_eq!(VoiceStatus::Enabled.name(), "enabled");
    assert_eq!(join_with_spaces(&vec![s("a"), s("b")]), "a b");
}

#[test]
fn daemon_voice_events() {
    let e = daemon_voice_emits(DaemonVoiceEvent::UserTranscript(s("hi")));
    assert!(matches!(&e[..], [VoiceEmit::Status(VoiceStatus::Enabled), VoiceEmit::Transcription(t)] if t == "hi"));
    assert!(daemon_voice_emits(DaemonVoiceEvent::Audio).is_empty());
    let e = daemon_voice_emits(DaemonVoiceEvent::Error(s("x")));
    assert!(matches!(&e[..], [VoiceEmit::Error(t), VoiceEmit::Status(VoiceStatus::Enabled)] if t == "x"));
}

#[test]
fn vad_detects_an_utterance() {
    let mut v: VoiceActivityDetector<i16> = VoiceActivityDetector::new(0);
    assert_eq!(v.state(), VadState::Silence);
    assert!(v.process_samples(true, 10, &[1, 2]).is_none());
    assert_eq!(v.state(), VadState::PossibleSpeech);
    match v.process_samples(true, 300, &[3]) {
        Some(SpeechEvent::SpeechStart { .. }) => {}
        _ => panic!("speech should start after 200 ms"),
    }
    assert_eq!(v.state(), VadState::Speech);
    let mut ended = None;
    for (t, samples) in [(400u64, vec![4i16]), (500, vec![5]), (1100, vec![6])] {
        if let Some(SpeechEvent::SpeechEnd(seg)) = v.process_samples(false, t, &samples) {
            ended = Some(seg);
        }
    }
    let seg = ended.expect("speech should end after 500 ms of silence");
    assert_eq!(seg.audio_data, vec![1, 2, 3, 4, 5, 6]);
    assert_eq!(v.state(), VadState::Silence);
}

#[test]
fn devices() {
    let names = vec![Some(s("Mic A")), None, Some(s("Mic B"))];
    let infos = audio_device_infos(&names, &Some(s("Mic B")));
    assert_eq!(infos.len(), 2);
    assert_eq!(infos[1].id, "Mic B");
    assert!(!infos[0].is_default && infos[1].is_default);
    assert_eq!(capture_device(Some("Mic B"), &names, true).ok(), Some(DeviceChoice::Listed(2)));
    assert_eq!(capture_device(Some("Mic C"), &names, true).err(), Some(s("input device not found: Mic C")));
    assert_eq!(capture_device(None, &names, false).err(), Some(s("no default input device")));
    assert_eq!(capture_device(None, &names, true).ok(), Some(DeviceChoice::Default));
    assert_eq!(streaming_device("Mic A", Some(&names), true), Some(DeviceChoice::Listed(0)));
    assert_eq!(streaming_device("Gone", Some(&names), true), Some(DeviceChoice::Default));
    assert_eq!(streaming_device("", None, false), None);
}

fn range(channels: u16, is_f32: bool, min_rate: u32, max_rate: u32) -> ConfigRange {
    ConfigRange { channels, is_f32, min_rate, max_rate }
}

#[test]
fn stream_configurations() {
    let configs = vec![range(6, true, 8000, 48000), range(2, false, 44100, 48000), range(1, true, 8000, 96000)];
    let c = capture_settings(&configs).ok().unwrap();
    assert_eq!((c.config_index, c.channels, c.sample_rate), (2, 1, 16000));
    let configs = vec![range(2, false, 44100, 48000)];
    let c = capture_settings(&configs).ok().unwrap();
    assert_eq!((c.config_index, c.sample_rate), (0, 44100));
    assert_eq!(capture_settings(&vec![range(8, true, 1, 2)]).err(), Some(s("No supported audio input config found")));
    assert_eq!(playback_settings(&vec![]).err(), Some(s("No supported audio output config found")));
    let p = playback_settings(&vec![range(2, false, 1, 2)]).ok().unwrap();
    assert_eq!((p.channels, p.sample_rate), (1, 16000));
    assert_eq!(streaming_config(&vec![range(4, true, 1, 2)]).err(), Some(s("No supported audio config")));
}

#[test]
fn voice_stream_framing() {
    assert_eq!(voice_stream_url("http://127.0.0.1:7000", "whisper"), "ws://127.0.0.1:7000/api/voice/stream/whisper");
    assert_eq!(voice_stream_url("https://d.example", "p"), "wss://d.example/api/voice/stream/p");
    assert_eq!(pcm_le_bytes(&[1, -1, 256, -32768]), vec![1, 0, 255, 255, 0, 1, 0, 128]);
    assert_eq!(ws_frame_action(&WsFrame::Json { has_id: true, has_result: true, has_params: false }), WsAction::Skip);
    assert_eq!(ws_frame_action(&WsFrame::Json { has_id: false, has_result: false, has_params: true }), WsAction::EmitParams);
    assert_eq!(ws_frame_action(&WsFrame::Json { has_id: true, has_result: false, has_params: false }), WsAction::EmitWhole);
    assert_eq!(ws_frame_action(&WsFrame::Close), WsAction::Stop);
    assert_eq!(ws_frame_action(&WsFrame::BadJson), WsAction::Skip);
}

#[test]
fn builds_without_audio() {
    assert_eq!(
        DummyAudioCapture::new().err(),
        Some(s("Audio capture is not available in this build (missing 'backend-cpal' feature)"))
    );
    assert_eq!(
        DummyAudioPlayer::new().err(),
        Some(s("Audio playback is not available in this build (missing 'backend-cpal' feature)"))
    );
    assert_eq!(
        DummyAudioStreamer::new().err(),
        Some(s("Audio streaming is not available in this build (missing 'backend-cpal' feature)"))
    );
}

#[test]
fn splitting() {
    assert_eq!(split_whitespace("  GET  /x HTTP/1.1\r\n"), vec![s("GET"), s("/x"), s("HTTP/1.1")]);
    assert_eq!(split_char("a&&b", '&'), vec![s("a"), s(""), s("b")]);
    assert_eq!(split_once_char("k=v=w", '='), Some((s("k"), s("v=w"))));
    assert_eq!(split_once_char("kv", '='), None);
}

#[test]
fn oauth_callback_requests() {
    let r = parse_callback_request("GET /callback?code=4%2F0Ab&state=xyz HTTP/1.1\r\n");
    assert_eq!(r, Some(Ok((s("4/0Ab"), s("xyz")))));
    let r = parse_callback_request("GET /callback?error=access_denied&code=c&state=s HTTP/1.1");
    assert_eq!(r, Some(Err(s("OAuth error: access_denied"))));
    let r = parse_callback_request("GET /callback?code=c HTTP/1.1");
    assert_eq!(r, Some(Err(s("Missing code or state parameter"))));
    assert_eq!(parse_callback_request("GET"), None);
    let resp = callback_http_response(true);
    assert!(resp.starts_with("HTTP/1.1 200 OK\r\nContent-Type: text/html\r\nContent-Length: "));
    assert!(resp.ends_with(CALLBACK_SUCCESS_BODY));
    assert!(callback_http_response(false).starts_with("HTTP/1.1 400 Bad Request\r\n"));
    assert_eq!(
        html_response_text("200 OK", "héllo"),
        "HTTP/1.1 200 OK\r\nContent-Type: text/html\r\nContent-Length: 6\r\nConnection: close\r\n\r\nhéllo"
    );
}

#[test]
fn asset_requests() {
    assert_eq!(asset_blob_hash("//abc123"), Some(s("abc123")));
    assert_eq!(asset_blob_hash("/"), None);
    assert_eq!(asset_mime_type(Some("x=1&mime_type=image%2Fpng")), "image/png");
    assert_eq!(asset_mime_type(Some("x=1")), "application/octet-stream");
    assert_eq!(asset_mime_type(None), "application/octet-stream");
    assert_eq!(asset_mime_type(Some("mime_type=%FF")), "");
    assert_eq!(blob_not_found_body("h1"), "Blob not found: h1");
    let h = asset_headers("h1", s("image/png"), 42);
    assert_eq!(h[1], (s("Content-Length"), s("42")));
    assert_eq!(h[2].1, "public, max-age=31536000, immutable");
    assert_eq!(h[3].1, "\"h1\"");
}

#[test]
fn voice_capture_needs_the_daemon() {
    assert_eq!(voice_stream_target(None, "p").err(), Some(s("daemon not initialized")));
    assert_eq!(
        voice_stream_target(Some("https://d.example"), "whisper").ok(),
        Some(s("wss://d.example/api/voice/stream/whisper"))
    );
}

#[test]
fn asset_request_replies() {
    let r = asset_response(None, Some(Some(vec![1])), None);
    assert_eq!(r.status, 400);
    assert_eq!(r.body, b"Missing blob_hash".to_vec());
    assert_eq!(r.headers, vec![(s("Content-Type"), s("text/plain"))]);
    let r = asset_response(Some("abc"), None, None);
    assert_eq!(r.status, 500);
    assert_eq!(r.body, b"Storage not initialized".to_vec());
    let r = asset_response(Some("abc"), Some(None), None);
    assert_eq!(r.status, 404);
    assert_eq!(r.body, b"Blob not found: abc".to_vec());
    let r = asset_response(Some("abc"), Some(Some(vec![7, 8, 9])), Some("mime_type=image%2Fpng"));
    assert_eq!(r.status, 200);
    assert_eq!(r.body, vec![7, 8, 9]);
    assert_eq!(r.headers[0], (s("Content-Type"), s("image/png")));
    assert_eq!(r.headers[1], (s("Content-Length"), s("3")));
    assert_eq!(r.headers[3], (s("ETag"), s("\"abc\"")));
    let r = asset_response(Some("abc"), Some(Some(vec![])), None);
    assert_eq!(r.headers[0].1, "application/octet-stream");
}
