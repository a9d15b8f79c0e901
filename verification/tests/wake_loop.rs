use shine_helper::asr::AsrMessage;
use shine_helper::wake::{
    processing_step, silence_elapsed, verify_step, AsrIncoming, EndReason, VoiceState,
    VoiceWakeError, VoiceWakeState, WakeAction, WakeEvent, WakeLoop, WakeLoopState,
    WAKE_COOLDOWN_MS,
};

fn new_loop(key: &str) -> WakeLoop {
    WakeLoop::new("小 Shine".to_string(), "ws://asr:2700".to_string(), key.to_string())
}

fn message(partial: Option<&str>, text: Option<&str>, result: Option<Vec<Option<&str>>>) -> AsrMessage {
    AsrMessage {
        partial: partial.map(|s| s.to_string()),
        text: text.map(|s| s.to_string()),
        result: result.map(|r| r.into_iter().map(|w| w.map(|s| s.to_string())).collect()),
    }
}

#[test]
fn full_wake_cycle() {
    let mut l = new_loop("");
    assert!(matches!(l.step(&WakeEvent::NoAudio), WakeAction::Poll));
    assert!(matches!(
        l.step(&WakeEvent::AudioFrame { loud: false, ms_since_last_wake: 10_000 }),
        WakeAction::Ignore
    ));
    assert_eq!(l.state, WakeLoopState::Idle);
    match l.step(&WakeEvent::AudioFrame { loud: true, ms_since_last_wake: 2500 }) {
        WakeAction::Verify { asr_url } => assert_eq!(asr_url, "ws://asr:2700"),
        _ => panic!("expected verification"),
    }
    assert_eq!(l.state, WakeLoopState::Verifying);
    let a = l.step(&WakeEvent::VerifyFinished { recognized: Some("小 shine".to_string()) });
    assert!(matches!(a, WakeAction::Announce));
    assert_eq!(l.state, WakeLoopState::Waking);
    assert!(!l.wake_listening);
    match l.step(&WakeEvent::ResponsePlayed) {
        WakeAction::Listen { asr_url } => assert_eq!(asr_url, "ws://asr:2700"),
        _ => panic!("expected listening"),
    }
    assert_eq!(l.state, WakeLoopState::Listening);
    assert!(l.wake_listening);
    assert!(matches!(
        l.step(&WakeEvent::ProcessingFinished),
        WakeAction::Finish { input_complete: true }
    ));
    assert_eq!(l.state, WakeLoopState::Idle);
    assert!(!l.wake_listening);
}

#[test]
fn cooldown_blocks_verification() {
    let mut l = new_loop("");
    let a = l.step(&WakeEvent::AudioFrame { loud: true, ms_since_last_wake: WAKE_COOLDOWN_MS - 1 });
    assert!(matches!(a, WakeAction::Ignore));
    assert_eq!(l.state, WakeLoopState::Idle);
    let a = l.step(&WakeEvent::AudioFrame { loud: true, ms_since_last_wake: WAKE_COOLDOWN_MS });
    assert!(matches!(a, WakeAction::Verify { .. }));
}

#[test]
fn wrong_word_or_failure_dismisses() {
    let mut l = new_loop("secret");
    match l.step(&WakeEvent::AudioFrame { loud: true, ms_since_last_wake: 3000 }) {
        WakeAction::Verify { asr_url } => assert_eq!(asr_url, "ws://asr:2700?api_key=secret"),
        _ => panic!("expected verification"),
    }
    let a = l.step(&WakeEvent::VerifyFinished { recognized: Some("今天天气".to_string()) });
    assert!(matches!(a, WakeAction::Dismiss));
    assert_eq!(l.state, WakeLoopState::Idle);
    l.step(&WakeEvent::AudioFrame { loud: true, ms_since_last_wake: 3000 });
    let a = l.step(&WakeEvent::VerifyFinished { recognized: None });
    assert!(matches!(a, WakeAction::Dismiss));
    assert_eq!(l.state, WakeLoopState::Idle);
}

#[test]
fn events_for_other_phases_are_ignored() {
    let mut l = new_loop("");
    assert!(matches!(l.step(&WakeEvent::ResponsePlayed), WakeAction::Ignore));
    assert!(matches!(l.step(&WakeEvent::ProcessingFinished), WakeAction::Ignore));
    assert_eq!(l.state, WakeLoopState::Idle);
}

#[test]
fn fallback_after_three_errors() {
    let mut s = VoiceWakeState::new();
    assert!(!s.is_running);
    assert_eq!(s.fallback_config.max_retries, 3);
    assert!(!s.record_error());
    assert!(!s.record_error());
    assert!(!s.is_in_fallback());
    assert!(s.record_error());
    assert!(s.is_in_fallback());
    assert_eq!(s.error_count, 3);
    s.reset_error();
    assert_eq!(s.error_count, 0);
    assert!(s.is_in_fallback());
    assert!(s.record_error() == false || s.fallback_config.max_retries <= 1);
}

#[test]
fn running_flag() {
    let mut s = VoiceWakeState::new();
    assert!(s.begin_running());
    assert!(!s.begin_running());
    assert!(s.is_running);
    s.end_running();
    assert!(!s.is_running);
    assert!(s.begin_running());
}

#[test]
fn processing_rounds() {
    let ends = vec!["结束".to_string(), "停止".to_string()];
    let o = processing_step(true, &AsrIncoming::Message(message(Some("你好"), None, None)), &ends, 0, 3000);
    let r = o.emit.unwrap();
    assert_eq!(r.text, "你好");
    assert!(!r.is_final);
    assert_eq!(o.end, None);

    let o = processing_step(true, &AsrIncoming::Message(message(None, Some("好的结束"), None)), &ends, 0, 3000);
    let r = o.emit.unwrap();
    assert_eq!(r.text, "好的结束");
    assert!(r.is_final);
    assert_eq!(o.end, Some(EndReason::EndWord));

    let o = processing_step(true, &AsrIncoming::Message(message(Some(""), Some("结束"), None)), &ends, 0, 3000);
    assert!(o.emit.is_none());
    assert_eq!(o.end, None);

    let o = processing_step(true, &AsrIncoming::Closed, &ends, 0, 3000);
    assert_eq!(o.end, Some(EndReason::Closed));
    let o = processing_step(true, &AsrIncoming::Failed, &ends, 0, 3000);
    assert_eq!(o.end, Some(EndReason::Error));
    let o = processing_step(true, &AsrIncoming::Silent, &ends, 2999, 3000);
    assert_eq!(o.end, None);
    let o = processing_step(true, &AsrIncoming::Silent, &ends, 3000, 3000);
    assert_eq!(o.end, Some(EndReason::SilenceTimeout));
    let o = processing_step(true, &AsrIncoming::Other, &ends, 5000, 3000);
    assert_eq!(o.end, Some(EndReason::SilenceTimeout));
    assert!(silence_elapsed(3000, 3000));
    assert!(!silence_elapsed(10, 3000));
}

#[test]
fn verification_rounds() {
    let mut text = String::new();
    assert!(!verify_step(&mut text, &AsrIncoming::Message(message(Some("小"), None, None))));
    assert_eq!(text, "小");
    assert!(!verify_step(&mut text, &AsrIncoming::Message(message(Some(""), None, None))));
    assert_eq!(text, "小");
    assert!(!verify_step(&mut text, &AsrIncoming::Other));
    let done = verify_step(
        &mut text,
        &AsrIncoming::Message(message(None, Some("x"), Some(vec![Some("小"), None, Some("shine")]))),
    );
    assert!(done);
    assert_eq!(text, "小 shine");
    let mut t2 = "keep".to_string();
    assert!(verify_step(&mut t2, &AsrIncoming::Silent));
    assert!(verify_step(&mut t2, &AsrIncoming::Closed));
    assert_eq!(t2, "keep");
}

#[test]
fn error_messages() {
    assert_eq!(VoiceWakeError::AsrUnavailable.message(), "ASR 服务不可用");
    assert_eq!(VoiceWakeError::AudioDeviceError.message(), "音频设备错误");
    assert_eq!(VoiceWakeError::NetworkError.message(), "网络连接错误");
    assert_eq!(VoiceWakeError::Timeout.message(), "操作超时");
    assert_eq!(VoiceWakeError::Other("boom".to_string()).message(), "boom");
}

fn notice(a: &WakeAction) -> Option<String> {
    a.state_notice().map(|s| s.name())
}

#[test]
fn wake_session_announces_states_in_order() {
    let mut l = new_loop("");
    let a = l.step(&WakeEvent::AudioFrame { loud: true, ms_since_last_wake: 5000 });
    assert_eq!(notice(&a), None);
    let a = l.step(&WakeEvent::VerifyFinished { recognized: Some("小 shine".to_string()) });
    assert_eq!(notice(&a), Some("waking".to_string()));
    let a = l.step(&WakeEvent::ResponsePlayed);
    assert_eq!(notice(&a), Some("listening".to_string()));
    let a = l.step(&WakeEvent::AsrConnected);
    assert!(matches!(a, WakeAction::Receive));
    assert_eq!(notice(&a), Some("processing".to_string()));
    assert_eq!(l.state, WakeLoopState::Listening);
    let a = l.step(&WakeEvent::ProcessingFinished);
    assert!(matches!(a, WakeAction::Finish { input_complete: true }));
    assert_eq!(notice(&a), Some("idle".to_string()));
    assert_eq!(l.state, WakeLoopState::Idle);
    assert_eq!(VoiceState::Processing.name(), "processing");
}

#[test]
fn stop_request_ends_the_loop() {
    let mut l = new_loop("");
    l.step(&WakeEvent::AudioFrame { loud: true, ms_since_last_wake: 5000 });
    l.step(&WakeEvent::VerifyFinished { recognized: Some("小 shine".to_string()) });
    l.step(&WakeEvent::ResponsePlayed);
    assert!(l.wake_listening);
    let a = l.step(&WakeEvent::StopRequested);
    assert!(matches!(a, WakeAction::Exit));
    assert_eq!(notice(&a), None);
    assert!(l.stopped);
    assert!(!l.wake_listening);
    assert_eq!(l.state, WakeLoopState::Idle);
    for e in [
        WakeEvent::NoAudio,
        WakeEvent::AudioFrame { loud: true, ms_since_last_wake: 10_000 },
        WakeEvent::ResponsePlayed,
        WakeEvent::ProcessingFinished,
    ] {
        assert!(matches!(l.step(&e), WakeAction::Exit));
        assert_eq!(l.state, WakeLoopState::Idle);
        assert!(l.stopped);
    }
}

#[test]
fn failed_connection_ends_listening() {
    let mut l = new_loop("k");
    l.step(&WakeEvent::AudioFrame { loud: true, ms_since_last_wake: 5000 });
    l.step(&WakeEvent::VerifyFinished { recognized: Some("小 shine".to_string()) });
    match l.step(&WakeEvent::ResponsePlayed) {
        WakeAction::Listen { asr_url } => assert_eq!(asr_url, "ws://asr:2700?api_key=k"),
        _ => panic!("expected listening"),
    }
    assert!(matches!(l.step(&WakeEvent::ProcessingFinished), WakeAction::Finish { input_complete: true }));
    assert!(matches!(l.step(&WakeEvent::AsrConnected), WakeAction::Ignore));
    assert_eq!(l.state, WakeLoopState::Idle);
}

#[test]
fn stopped_service_ends_listening_silently() {
    let ends = vec!["结束".to_string()];
    let o = processing_step(false, &AsrIncoming::Message(message(None, Some("你好"), None)), &ends, 0, 3000);
    assert!(o.emit.is_none());
    assert_eq!(o.end, Some(EndReason::Stopped));
}

#[test]
fn listening_rounds_read_message_text() {
    let ends = vec!["结束".to_string()];
    let o = processing_step(true, &AsrIncoming::from_text(r#"{"text": "好的结束"}"#), &ends, 0, 3000);
    let r = o.emit.expect("a final result");
    assert_eq!(r.text, "好的结束");
    assert_eq!(o.end, Some(EndReason::EndWord));
    assert!(matches!(AsrIncoming::from_text("garbage"), AsrIncoming::Other));
    let mut recognized = String::new();
    let done = verify_step(&mut recognized, &AsrIncoming::from_text(r#"{"result": [{"word": "小"}, {"word": "shine"}]}"#));
    assert!(done);
    assert_eq!(recognized, "小 shine");
}
