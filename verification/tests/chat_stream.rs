use shine_helper::openclaw::{
    chat_response_text, sse_data_payload, ChatResponse, ChatStream, ContentBlock, OpenClawClient,
    OutputItem, SseLineDecoder, StreamEvent,
};

fn ev(t: Option<&str>, delta: Option<&str>, event: Option<&str>, key: Option<&str>) -> StreamEvent {
    StreamEvent {
        event_type: t.map(|s| s.to_string()),
        delta: delta.map(|s| s.to_string()),
        event: event.map(|s| s.to_string()),
        payload_session_key: key.map(|s| s.to_string()),
    }
}

#[test]
fn decoder_splits_lines_across_chunks() {
    let mut d = SseLineDecoder::new();
    let p = d.push_chunk(b"data: {\"a\":1}\n\ndata: [DONE]\nevent: x\nda");
    assert_eq!(p, vec!["{\"a\":1}".to_string()]);
    assert_eq!(d.pending_len(), 2);
    let p = d.push_chunk(b"ta:   hello  \r\n");
    assert_eq!(p, vec!["hello".to_string()]);
    assert_eq!(d.pending_len(), 0);
    assert!(d.push_chunk(b"data:    \n").is_empty());
}

#[test]
fn payload_of_lines() {
    assert_eq!(sse_data_payload("data: x"), Some("x".to_string()));
    assert_eq!(sse_data_payload("data: [DONE]"), None);
    assert_eq!(sse_data_payload("data:x"), None);
    assert_eq!(sse_data_payload("event: data: x"), None);
}

#[test]
fn stream_events() {
    let mut s = ChatStream::new();
    let st = s.handle_event(&ev(Some("response.output_text.delta"), Some("你"), None, None));
    assert_eq!(st.chunk, Some("你".to_string()));
    assert!(!st.done);
    let st = s.handle_event(&ev(None, None, Some("agent"), Some("sess-1")));
    assert!(st.chunk.is_none() && !st.done);
    assert_eq!(s.session_key, Some("sess-1".to_string()));
    let st = s.handle_event(&ev(Some("response.output_text.done"), None, Some("agent"), Some("sess-2")));
    assert!(st.done);
    assert_eq!(s.session_key, Some("sess-1".to_string()));
    let st = s.handle_event(&ev(Some("response.completed"), None, None, None));
    assert!(st.done);
    let st = s.handle_event(&ev(Some("other"), Some("x"), Some("lifecycle"), Some("k")));
    assert!(st.chunk.is_none() && !st.done);
    assert_eq!(s.session_key, Some("sess-1".to_string()));
}

fn response(key: Option<&str>) -> ChatResponse {
    ChatResponse {
        output: vec![
            OutputItem {
                output_type: "message".to_string(),
                message_content: Some("Hi ".to_string()),
                content: Some(vec![
                    ContentBlock { content_type: "output_text".to_string(), text: Some("there".to_string()) },
                    ContentBlock { content_type: "refusal".to_string(), text: Some("no".to_string()) },
                    ContentBlock { content_type: "output_text".to_string(), text: None },
                ]),
            },
            OutputItem { output_type: "reasoning".to_string(), message_content: Some("x".to_string()), content: None },
            OutputItem { output_type: "message".to_string(), message_content: None, content: Some(vec![
                ContentBlock { content_type: "output_text".to_string(), text: Some("!".to_string()) },
            ]) },
        ],
        session_key: key.map(|s| s.to_string()),
    }
}

#[test]
fn response_text_concatenates_message_items() {
    assert_eq!(chat_response_text(&response(None).output), "Hi there!");
    assert_eq!(chat_response_text(&vec![]), "");
}

#[test]
fn client_session_keys() {
    let mut c = OpenClawClient::new("http://localhost:18789");
    assert!(c.get_session_key().is_none());
    assert_eq!(c.responses_url(), "http://localhost:18789/v1/responses");
    c.set_token("tok".to_string());
    assert_eq!(c.authorization(), "Bearer tok");
    let (text, key) = c.absorb_response(&response(None), Some("hdr".to_string()));
    assert_eq!(text, "Hi there!");
    assert_eq!(key, Some("hdr".to_string()));
    let (_, key) = c.absorb_response(&response(Some("body")), Some("hdr2".to_string()));
    assert_eq!(key, Some("body".to_string()));
    let (_, key) = c.absorb_response(&response(None), None);
    assert_eq!(key, Some("body".to_string()));
    assert_eq!(c.get_session_key(), Some(&"body".to_string()));
    c.set_session_key(None);
    assert!(c.get_session_key().is_none());
}

#[test]
fn chunking_does_not_change_payloads() {
    let stream: &[u8] = b"data: one\n\ndata:  two \r\nevent: agent\ndata: [DONE]\ndata: three\n";
    let mut whole = SseLineDecoder::new();
    let all_at_once = whole.push_chunk(stream);
    for split in 0..=stream.len() {
        let mut d = SseLineDecoder::new();
        let mut got = d.push_chunk(&stream[..split]);
        got.extend(d.push_chunk(&stream[split..]));
        assert_eq!(got, all_at_once);
        assert_eq!(d.pending_len(), 0);
    }
    assert_eq!(all_at_once, vec!["one".to_string(), "two".to_string(), "three".to_string()]);
}

#[test]
fn client_adopts_stream_session_key_on_completion() {
    let mut client = OpenClawClient::new("http://gw");
    client.set_session_key(Some("old".to_string()));
    let mut stream = ChatStream::new();
    let st = client.handle_stream_event(&mut stream, &ev(None, None, Some("agent"), Some("k1")));
    assert!(!st.done);
    assert_eq!(client.get_session_key(), Some(&"old".to_string()));
    let st = client.handle_stream_event(&mut stream, &ev(Some("response.output_text.delta"), Some("hi"), None, None));
    assert_eq!(st.chunk, Some("hi".to_string()));
    assert_eq!(client.get_session_key(), Some(&"old".to_string()));
    let st = client.handle_stream_event(&mut stream, &ev(Some("response.completed"), None, None, None));
    assert!(st.done);
    assert_eq!(client.get_session_key(), Some(&"k1".to_string()));
}

#[test]
fn client_drops_its_key_when_the_stream_reported_none() {
    let mut client = OpenClawClient::new("http://gw");
    client.set_session_key(Some("old".to_string()));
    let mut stream = ChatStream::new();
    let st = client.handle_stream_event(&mut stream, &ev(Some("response.output_text.done"), None, None, None));
    assert!(st.done);
    assert_eq!(client.get_session_key(), None);
    assert_eq!(client.responses_url(), "http://gw/v1/responses");
}

#[test]
fn stream_lines_read_as_json() {
    let mut client = OpenClawClient::new("http://gw");
    client.set_session_key(Some("old".to_string()));
    let mut stream = ChatStream::new();
    assert!(client.handle_stream_line(&mut stream, "not json").is_none());
    assert_eq!(stream.session_key, None);
    let st = client
        .handle_stream_line(&mut stream, r#"{"event": "agent", "payload": {"sessionKey": "s9"}}"#)
        .expect("an event");
    assert!(!st.done && st.chunk.is_none());
    assert_eq!(stream.session_key, Some("s9".to_string()));
    assert_eq!(client.get_session_key(), Some(&"old".to_string()));
    let st = client
        .handle_stream_line(&mut stream, r#"{"type": "response.output_text.delta", "delta": "你好"}"#)
        .expect("an event");
    assert_eq!(st.chunk, Some("你好".to_string()));
    let st = client
        .handle_stream_line(&mut stream, r#"{"event": "agent", "payload": {"sessionKey": 7}}"#)
        .expect("an event");
    assert!(!st.done);
    assert_eq!(stream.session_key, Some("s9".to_string()));
    let st = client.handle_stream_line(&mut stream, r#"{"type": "response.completed"}"#).expect("an event");
    assert!(st.done);
    assert_eq!(client.get_session_key(), Some(&"s9".to_string()));
}
