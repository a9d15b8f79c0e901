use shine_helper::asr::{
    asr_result_of_json, capture_step, CaptureEvent, asr_result_of, asr_url_unless_empty, asr_url_with_key, capture_result, join_words,
    microphones_from_listing, verify_update, AsrMessage, VoiceRecognitionConfig, VoskAsrClient,
};

fn message(partial: Option<&str>, text: Option<&str>, result: Option<Vec<Option<&str>>>) -> AsrMessage {
    AsrMessage {
        partial: partial.map(|s| s.to_string()),
        text: text.map(|s| s.to_string()),
        result: result.map(|r| r.into_iter().map(|w| w.map(|s| s.to_string())).collect()),
    }
}

#[test]
fn urls_with_keys() {
    assert_eq!(asr_url_with_key("ws://a:1", Some("k")), "ws://a:1?api_key=k");
    assert_eq!(asr_url_with_key("ws://a:1", Some("")), "ws://a:1?api_key=");
    assert_eq!(asr_url_with_key("ws://a:1", None), "ws://a:1");
    assert_eq!(asr_url_unless_empty("ws://a:1", ""), "ws://a:1");
    assert_eq!(asr_url_unless_empty("ws://a:1", "z"), "ws://a:1?api_key=z");
    assert_eq!(VoskAsrClient::new("ws://v", Some("key")).connection_url(), "ws://v?api_key=key");
    assert_eq!(VoskAsrClient::new("ws://v", None).connection_url(), "ws://v");
    let cfg = VoiceRecognitionConfig { url: "ws://r".to_string(), api_key: Some("q".to_string()) };
    assert_eq!(cfg.connection_url(), "ws://r?api_key=q");
}

#[test]
fn results_of_messages() {
    let r = asr_result_of(&message(Some("ab"), Some("zz"), None)).unwrap();
    assert_eq!((r.text.as_str(), r.is_final), ("ab", false));
    assert!(asr_result_of(&message(Some(""), Some("zz"), None)).is_none());
    let r = asr_result_of(&message(None, Some("done"), None)).unwrap();
    assert_eq!((r.text.as_str(), r.is_final), ("done", true));
    assert!(asr_result_of(&message(None, Some(""), None)).is_none());
    assert!(asr_result_of(&message(None, None, None)).is_none());
}

#[test]
fn words_join_with_spaces() {
    let ws = vec![Some("a".to_string()), None, Some("b".to_string()), Some("c".to_string())];
    assert_eq!(join_words(&ws), "a b c");
    assert_eq!(join_words(&[None, None]), "");
    assert_eq!(join_words(&[]), "");
}

#[test]
fn verify_update_rules() {
    let mut t = "old".to_string();
    assert!(!verify_update(&mut t, &message(None, None, Some(vec![]))));
    assert_eq!(t, "old");
    assert!(verify_update(&mut t, &message(Some("p"), None, Some(vec![Some("w")]))));
    assert_eq!(t, "w");
}

#[test]
fn capture_results() {
    let r = capture_result(&message(Some("ignored"), None, Some(vec![Some("你"), Some("好")]))).unwrap();
    assert_eq!((r.text.as_str(), r.is_final), ("你 好", true));
    assert!(capture_result(&message(Some("p"), None, Some(vec![]))).is_none());
    let r = capture_result(&message(Some(""), None, None)).unwrap();
    assert_eq!((r.text.as_str(), r.is_final), ("", false));
    assert!(capture_result(&message(None, Some("t"), None)).is_none());
}

#[test]
fn microphone_listing() {
    let out = b"**** List of CAPTURE Hardware Devices ****\ncard 0: PCH [HDA Intel PCH], device 0: ALC\n  Subdevices: 1/1\r\ncard 1: USB [USB Audio], device 0\r\n";
    assert_eq!(
        microphones_from_listing(out),
        vec!["card 0: PCH [HDA Intel PCH], device 0: ALC".to_string(), "card 1: USB [USB Audio], device 0".to_string()]
    );
    assert!(microphones_from_listing(b"").is_empty());
    let bad = b"card 2: \xff\xfe\n";
    assert_eq!(microphones_from_listing(bad), vec!["card 2: \u{fffd}\u{fffd}".to_string()]);
}

#[test]
fn capture_session_steps() {
    let o = capture_step(&CaptureEvent::StopRequested, 3000);
    assert!(o.stop && o.emit.is_none());
    let o = capture_step(&CaptureEvent::Tick { ms_since_audio: 2999 }, 3000);
    assert!(!o.stop && o.emit.is_none());
    let o = capture_step(&CaptureEvent::Tick { ms_since_audio: 3000 }, 3000);
    assert!(o.stop);
    let r = o.emit.expect("silence reports an empty final result");
    assert_eq!(r.text, "");
    assert!(r.is_final);
    let o = capture_step(&CaptureEvent::Message(message(Some("你"), None, None)), 3000);
    assert!(!o.stop);
    let r = o.emit.expect("a partial result is reported");
    assert_eq!(r.text, "你");
    assert!(!r.is_final);
    let o = capture_step(&CaptureEvent::Message(message(None, None, Some(vec![Some("a"), None, Some("b")]))), 3000);
    assert!(!o.stop);
    let r = o.emit.expect("a final result is reported");
    assert_eq!(r.text, "a b");
    assert!(r.is_final);
    let o = capture_step(&CaptureEvent::Message(message(None, Some("x"), None)), 3000);
    assert!(!o.stop && o.emit.is_none());
    let o = capture_step(&CaptureEvent::Closed, 3000);
    assert!(o.stop && o.emit.is_none());
    let o = capture_step(&CaptureEvent::Other, 3000);
    assert!(!o.stop && o.emit.is_none());
}

#[test]
fn results_read_from_message_text() {
    let r = asr_result_of_json(r#"{"partial": "你好"}"#).expect("a partial result");
    assert_eq!(r.text, "你好");
    assert!(!r.is_final);
    let r = asr_result_of_json(r#"{"text": "好的", "result": []}"#).expect("a final result");
    assert_eq!(r.text, "好的");
    assert!(r.is_final);
    let r = asr_result_of_json(r#"{"partial": 5, "text": "x"}"#).expect("a non-string partial is absent");
    assert_eq!(r.text, "x");
    assert!(r.is_final);
    assert!(asr_result_of_json(r#"{"partial": ""}"#).is_none());
    assert!(asr_result_of_json(r#"{"partial": "", "text": "x"}"#).is_none());
    assert!(asr_result_of_json("not json").is_none());
    assert!(asr_result_of_json("[1, 2]").is_none());
}

#[test]
fn capture_events_read_from_message_text() {
    let e = CaptureEvent::from_text(r#"{"result": [{"word": "打开"}, {"conf": 1}, {"word": "灯"}], "text": "打开 灯"}"#);
    let o = capture_step(&e, 3000);
    let r = o.emit.expect("a final result");
    assert_eq!(r.text, "打开 灯");
    assert!(r.is_final);
    assert!(!o.stop);
    assert!(matches!(CaptureEvent::from_text("{oops"), CaptureEvent::Other));
    let e = CaptureEvent::from_text(r#"{"partial": "打"}"#);
    let r = capture_step(&e, 3000).emit.expect("a partial result");
    assert_eq!(r.text, "打");
    assert!(!r.is_final);
}
