//! The OpenClaw gateway client: its session state, the text of a chat
//! response, and the server-sent-event stream of a streamed chat, decoded
//! line by line from a growing byte buffer.
use vstd::prelude::*;
use bytes::BytesMut;
use crate::asr::opt_view;
use crate::text::{chars_of, chars_eq, starts_with_seq, trim, trim_bounds};
use crate::text_io::{starts_with_str, str_equals, utf8_lossy, utf8_lossy_decode};

verus! {

// ---------------------------------------------------------------------
// Trusted boundary: `bytes::BytesMut`
// ---------------------------------------------------------------------

/// `bytes::BytesMut`, a growable byte buffer.
#[verifier::external_type_specification]
#[verifier::external_body]
pub struct ExBytesMut(BytesMut);

/// The bytes a `BytesMut` holds.
pub uninterp spec fn bytes_mut_contents(b: BytesMut) -> Seq<u8>;

/// Calls `BytesMut::new`: an empty buffer.
#[verifier::external_body]
fn bytes_mut_new() -> (b: BytesMut)
    ensures
        bytes_mut_contents(b) == Seq::<u8>::empty(),
{
    BytesMut::new()
}

/// Calls `BytesMut::extend_from_slice`, which appends `data`. It reserves
/// room first and panics when the capacity would overflow, so the combined
/// length is required to stay within `isize::MAX`.
#[verifier::external_body]
fn bytes_mut_extend(b: &mut BytesMut, data: &[u8])
    requires
        bytes_mut_contents(*old(b)).len() + data@.len() <= isize::MAX,
    ensures
        bytes_mut_contents(*final(b)) == bytes_mut_contents(*old(b)) + data@,
{
    b.extend_from_slice(data)
}

/// The buffer's bytes as a slice, through `BytesMut`'s `Deref`.
#[verifier::external_body]
fn bytes_mut_as_slice(b: &BytesMut) -> (s: &[u8])
    ensures
        s@ == bytes_mut_contents(*b),
{
    &b[..]
}

/// Calls `BytesMut::from(&[u8])`: a buffer holding a copy of `s`.
#[verifier::external_body]
fn bytes_mut_from_slice(s: &[u8]) -> (b: BytesMut)
    ensures
        bytes_mut_contents(b) == s@,
{
    BytesMut::from(s)
}

// ---------------------------------------------------------------------
// Chat responses
// ---------------------------------------------------------------------

/// A content block of a response item.
pub struct ContentBlock {
    pub content_type: String,
    pub text: Option<String>,
}

/// An item of a response's `output`: its type, the content of its
/// `message` when there is one, and its content blocks.
pub struct OutputItem {
    pub output_type: String,
    pub message_content: Option<String>,
    pub content: Option<Vec<ContentBlock>>,
}

/// A chat response, as far as the client reads it.
pub struct ChatResponse {
    pub output: Vec<OutputItem>,
    pub session_key: Option<String>,
}

pub open spec fn opt_text(o: Option<String>) -> Seq<char> {
    match o {
        Some(s) => s@,
        None => seq![],
    }
}

/// The text of the `output_text` blocks, concatenated.
pub open spec fn blocks_text(bs: Seq<ContentBlock>) -> Seq<char>
    decreases bs.len(),
{
    if bs.len() == 0 {
        seq![]
    } else {
        blocks_text(bs.drop_last()) + if bs.last().content_type@ == "output_text"@ {
            opt_text(bs.last().text)
        } else {
            seq![]
        }
    }
}

/// The text of an item: for a `message` item, its message content and then
/// its `output_text` blocks; nothing for other items.
pub open spec fn item_text(it: OutputItem) -> Seq<char> {
    if it.output_type@ == "message"@ {
        opt_text(it.message_content) + match it.content {
            Some(bs) => blocks_text(bs@),
            None => seq![],
        }
    } else {
        seq![]
    }
}

/// The text of all items, concatenated.
pub open spec fn response_text(items: Seq<OutputItem>) -> Seq<char>
    decreases items.len(),
{
    if items.len() == 0 {
        seq![]
    } else {
        response_text(items.drop_last()) + item_text(items.last())
    }
}

fn append_opt(r: &mut String, o: &Option<String>)
    ensures
        final(r)@ == old(r)@ + opt_text(*o),
{
    if let Some(s) = o {
        r.append(s.as_str());
    } else {
        assert(old(r)@ + seq![] =~= old(r)@);
    }
}

fn append_blocks(r: &mut String, bs: &Vec<ContentBlock>)
    ensures
        final(r)@ == old(r)@ + blocks_text(bs@),
{
    let mut i: usize = 0;
    assert(bs@.take(0) =~= Seq::<ContentBlock>::empty());
    assert(old(r)@ + seq![] =~= old(r)@);
    while i < bs.len()
        invariant
            i <= bs@.len(),
            r@ == old(r)@ + blocks_text(bs@.take(i as int)),
        decreases bs@.len() - i,
    {
        assert(bs@.take(i + 1).drop_last() =~= bs@.take(i as int));
        let ghost before = r@;
        if str_equals(bs[i].content_type.as_str(), "output_text") {
            append_opt(r, &bs[i].text);
        } else {
            assert(before + seq![] =~= before);
        }
        assert(r@ =~= old(r)@ + blocks_text(bs@.take(i + 1)));
        i = i + 1;
    }
    assert(bs@.take(bs@.len() as int) =~= bs@);
}

/// The text of a chat response.
pub fn chat_response_text(items: &Vec<OutputItem>) -> (r: String)
    ensures
        r@ == response_text(items@),
{
    let mut r = String::new();
    let mut i: usize = 0;
    assert(items@.take(0) =~= Seq::<OutputItem>::empty());
    while i < items.len()
        invariant
            i <= items@.len(),
            r@ == response_text(items@.take(i as int)),
        decreases items@.len() - i,
    {
        assert(items@.take(i + 1).drop_last() =~= items@.take(i as int));
        let ghost before = r@;
        let it = &items[i];
        if str_equals(it.output_type.as_str(), "message") {
            append_opt(&mut r, &it.message_content);
            if let Some(bs) = &it.content {
                append_blocks(&mut r, bs);
            } else {
                assert(r@ + seq![] =~= r@);
            }
            assert(r@ =~= before + item_text(*it));
        } else {
            assert(before + seq![] =~= before);
        }
        assert(r@ =~= response_text(items@.take(i + 1)));
        i = i + 1;
    }
    assert(items@.take(items@.len() as int) =~= items@);
    r
}

// ---------------------------------------------------------------------
// Client state
// ---------------------------------------------------------------------

/// The gateway client's state: base URL, bearer token and the session key
/// the gateway last handed out.
pub struct OpenClawClient {
    base_url: String,
    token: String,
    session_key: Option<String>,
}

/// The client's state as text: base URL, token and session key.
pub struct OpenClawClientView {
    pub base_url: Seq<char>,
    pub token: Seq<char>,
    pub session_key: Option<Seq<char>>,
}

impl View for OpenClawClient {
    type V = OpenClawClientView;

    closed spec fn view(&self) -> OpenClawClientView {
        OpenClawClientView {
            base_url: self.base_url@,
            token: self.token@,
            session_key: opt_view(self.session_key),
        }
    }
}

impl OpenClawClient {
    /// A client of the gateway at `base_url`, with no token and no session.
    pub fn new(base_url: &str) -> (c: Self)
        ensures
            c@.base_url == base_url@,
            c@.token == Seq::<char>::empty(),
            c@.session_key is None,
    {
        OpenClawClient { base_url: String::from_str(base_url), token: String::new(), session_key: None }
    }

    /// Sets the bearer token.
    pub fn set_token(&mut self, token: String)
        ensures
            final(self)@.token == token@,
            final(self)@.base_url == old(self)@.base_url,
            final(self)@.session_key == old(self)@.session_key,
    {
        self.token = token;
    }

    /// Sets the session key.
    pub fn set_session_key(&mut self, session_key: Option<String>)
        ensures
            final(self)@.session_key == opt_view(session_key),
            final(self)@.base_url == old(self)@.base_url,
            final(self)@.token == old(self)@.token,
    {
        self.session_key = session_key;
    }

    /// The session key, if the gateway handed one out.
    pub fn get_session_key(&self) -> (k: Option<&String>)
        ensures
            match k {
                Some(s) => self@.session_key == Some(s@),
                None => self@.session_key is None,
            },
    {
        self.session_key.as_ref()
    }

    /// The URL chat requests go to.
    pub fn responses_url(&self) -> (u: String)
        ensures
            u@ == self@.base_url + "/v1/responses"@,
    {
        let mut u = self.base_url.clone();
        u.append("/v1/responses");
        u
    }

    /// The `Authorization` header value.
    pub fn authorization(&self) -> (h: String)
        ensures
            h@ == "Bearer "@ + self@.token,
    {
        let mut h = String::from_str("Bearer ");
        h.append(self.token.as_str());
        h
    }

    /// Takes in a chat response: adopts its session key, or else the one
    /// from the response header, when either is present; returns the
    /// response text and the session key now held.
    pub fn absorb_response(&mut self, resp: &ChatResponse, header_session_key: Option<String>) -> (r: (
        String,
        Option<String>,
    ))
        ensures
            final(self)@.base_url == old(self)@.base_url,
            final(self)@.token == old(self)@.token,
            final(self)@.session_key == match resp.session_key {
                Some(k) => Some(k@),
                None => match header_session_key {
                    Some(k) => Some(k@),
                    None => old(self)@.session_key,
                },
            },
            r.0@ == response_text(resp.output@),
            opt_view(r.1) == final(self)@.session_key,
    {
        let new_key = match &resp.session_key {
            Some(k) => Some(k.clone()),
            None => header_session_key,
        };
        if let Some(k) = new_key {
            self.session_key = Some(k);
        }
        let text = chat_response_text(&resp.output);
        let key = match &self.session_key {
            Some(k) => Some(k.clone()),
            None => None,
        };
        (text, key)
    }
}

// ---------------------------------------------------------------------
// Server-sent events
// ---------------------------------------------------------------------

/// Position of the first newline byte in `s`, or `s.len()`.
pub open spec fn first_nl_byte(s: Seq<u8>) -> int
    decreases s.len(),
{
    if s.len() == 0 {
        0
    } else if s[0] == 10u8 {
        0
    } else {
        1 + first_nl_byte(s.drop_first())
    }
}

pub proof fn lemma_first_nl_byte(s: Seq<u8>)
    ensures
        0 <= first_nl_byte(s) <= s.len(),
        first_nl_byte(s) < s.len() ==> s[first_nl_byte(s)] == 10u8,
        forall|j: int| 0 <= j < first_nl_byte(s) ==> s[j] != 10u8,
    decreases s.len(),
{
    if s.len() > 0 && s[0] != 10u8 {
        lemma_first_nl_byte(s.drop_first());
        assert forall|j: int| 0 <= j < first_nl_byte(s) implies s[j] != 10u8 by {
            if j > 0 {
                assert(s.drop_first()[j - 1] == s[j]);
            }
        }
    }
}

pub proof fn lemma_first_nl_byte_at(s: Seq<u8>, k: int)
    requires
        0 <= k <= s.len(),
        k < s.len() ==> s[k] == 10u8,
        forall|j: int| 0 <= j < k ==> s[j] != 10u8,
    ensures
        first_nl_byte(s) == k,
    decreases s.len(),
{
    if s.len() > 0 && k > 0 {
        assert forall|j: int| 0 <= j < k - 1 implies s.drop_first()[j] != 10u8 by {
            assert(s.drop_first()[j] == s[j + 1]);
        }
        lemma_first_nl_byte_at(s.drop_first(), k - 1);
    }
}

/// The newline-terminated lines of `s`, without their newlines.
pub open spec fn complete_lines(s: Seq<u8>) -> Seq<Seq<u8>>
    decreases s.len(),
{
    let k = first_nl_byte(s);
    proof {
        lemma_first_nl_byte(s);
    }
    if k >= s.len() {
        seq![]
    } else {
        seq![s.take(k)] + complete_lines(s.skip(k + 1))
    }
}

/// What follows the last newline of `s` (all of `s` when it has none).
pub open spec fn pending_tail(s: Seq<u8>) -> Seq<u8>
    decreases s.len(),
{
    let k = first_nl_byte(s);
    proof {
        lemma_first_nl_byte(s);
    }
    if k >= s.len() {
        s
    } else {
        pending_tail(s.skip(k + 1))
    }
}

/// `s` holds no newline byte.
pub open spec fn no_newline(s: Seq<u8>) -> bool {
    forall|i: int| 0 <= i < s.len() ==> s[i] != 10u8
}

/// The data of an event line: what follows `"data: "`, trimmed, unless it
/// is empty or the `[DONE]` marker.
pub open spec fn sse_payload(line: Seq<char>) -> Option<Seq<char>> {
    if starts_with_seq(line, "data: "@) {
        let d = trim(line.skip(6));
        if d.len() == 0 || d == "[DONE]"@ {
            None
        } else {
            Some(d)
        }
    } else {
        None
    }
}

/// The data of the given byte lines, in order.
pub open spec fn line_payloads(ls: Seq<Seq<u8>>) -> Seq<Seq<char>>
    decreases ls.len(),
{
    if ls.len() == 0 {
        seq![]
    } else {
        let rest = line_payloads(ls.drop_first());
        match sse_payload(utf8_lossy_decode(ls[0])) {
            Some(d) => seq![d] + rest,
            None => rest,
        }
    }
}

/// The data of an event line, if it carries any.
pub fn sse_data_payload(line: &str) -> (r: Option<String>)
    ensures
        opt_view(r) == sse_payload(line@),
{
    if !starts_with_str(line, "data: ") {
        return None;
    }
    proof {
        reveal_strlit("data: ");
    }
    let cs = chars_of(line);
    let rest = vstd::slice::slice_subrange(cs.as_slice(), 6, cs.len());
    assert(rest@ =~= line@.skip(6));
    let (a, b) = trim_bounds(rest);
    let d = line.substring_char(6 + a, 6 + b);
    assert(d@ =~= rest@.subrange(a as int, b as int));
    let dc = chars_of(d);
    let done = chars_of("[DONE]");
    if dc.len() == 0 || chars_eq(dc.as_slice(), done.as_slice()) {
        return None;
    }
    Some(String::from_str(d))
}

/// Splits a byte stream into lines and keeps the event data they carry.
pub struct SseLineDecoder {
    buffer: BytesMut,
}

impl View for SseLineDecoder {
    type V = Seq<u8>;

    /// The bytes received after the last complete line.
    closed spec fn view(&self) -> Seq<u8> {
        bytes_mut_contents(self.buffer)
    }
}

impl SseLineDecoder {
    /// No newline waits in the buffer: every complete line has been handed out.
    #[verifier::type_invariant]
    spec fn holds_no_newline(self) -> bool {
        no_newline(bytes_mut_contents(self.buffer))
    }

    /// A decoder that has received nothing.
    pub fn new() -> (d: Self)
        ensures
            d@ == Seq::<u8>::empty(),
    {
        SseLineDecoder { buffer: bytes_mut_new() }
    }

    /// The number of bytes waiting for the end of their line.
    pub fn pending_len(&self) -> (n: usize)
        ensures
            n == self@.len(),
    {
        bytes_mut_as_slice(&self.buffer).len()
    }

    /// Takes in the next chunk of the stream; returns the data of every
    /// line it completes, in order, and keeps the unfinished line.
    pub fn push_chunk(&mut self, chunk: &[u8]) -> (payloads: Vec<String>)
        requires
            old(self)@.len() + chunk@.len() <= isize::MAX,
        ensures
            payloads@.map_values(|s: String| s@) == line_payloads(
                complete_lines(old(self)@ + chunk@),
            ),
            final(self)@ == pending_tail(old(self)@ + chunk@),
            no_newline(final(self)@),
    {
        proof {
            use_type_invariant(&*self);
        }
        let ghost all = old(self)@ + chunk@;
        let mut buffer = bytes_mut_new();
        std::mem::swap(&mut buffer, &mut self.buffer);
        bytes_mut_extend(&mut buffer, chunk);
        let mut payloads: Vec<String> = Vec::new();
        loop
            invariant
                payloads@.map_values(|s: String| s@) + line_payloads(
                    complete_lines(bytes_mut_contents(buffer)),
                ) == line_payloads(complete_lines(all)),
                pending_tail(bytes_mut_contents(buffer)) == pending_tail(all),
                bytes_mut_contents(buffer).len() <= all.len(),
            ensures
                payloads@.map_values(|s: String| s@) == line_payloads(complete_lines(all)),
                bytes_mut_contents(buffer) == pending_tail(all),
                no_newline(bytes_mut_contents(buffer)),
            decreases bytes_mut_contents(buffer).len(),
        {
            let s = bytes_mut_as_slice(&buffer);
            let n = s.len();
            let mut pos: usize = 0;
            while pos < n && s[pos] != 10u8
                invariant
                    pos <= n == s@.len(),
                    forall|j: int| 0 <= j < pos ==> s@[j] != 10u8,
                decreases n - pos,
            {
                pos = pos + 1;
            }
            proof {
                lemma_first_nl_byte_at(s@, pos as int);
            }
            if pos == n {
                assert(complete_lines(s@) =~= Seq::<Seq<u8>>::empty());
                assert(payloads@.map_values(|s: String| s@) + seq![] =~= payloads@.map_values(
                    |s: String| s@,
                ));
                break;
            }
            let line = utf8_lossy(vstd::slice::slice_subrange(s, 0, pos));
            let ghost old_buf = s@;
            let rest = vstd::slice::slice_subrange(s, pos + 1, n);
            let next = bytes_mut_from_slice(rest);
            buffer = next;
            proof {
                assert(old_buf.take(pos as int) =~= old_buf.subrange(0, pos as int));
                assert(old_buf.skip(pos + 1) =~= rest@);
                assert(complete_lines(old_buf) == seq![old_buf.take(pos as int)] + complete_lines(
                    rest@,
                ));
                assert((seq![old_buf.take(pos as int)] + complete_lines(rest@)).drop_first()
                    =~= complete_lines(rest@));
                assert(pending_tail(old_buf) == pending_tail(rest@));
            }
            let ghost before = payloads@.map_values(|s: String| s@);
            match sse_data_payload(line.as_str()) {
                Some(d) => {
                    payloads.push(d);
                    assert(payloads@.map_values(|s: String| s@) =~= before.push(d@));
                    assert(before.push(d@) + line_payloads(complete_lines(rest@)) =~= before + (
                    seq![d@] + line_payloads(complete_lines(rest@))));
                },
                None => {},
            }
        }
        self.buffer = buffer;
        payloads
    }
}

/// What a streamed chat event carries, as far as the client reads it:
/// its `type`, `delta` and `event` strings and `payload.sessionKey`.
pub struct StreamEvent {
    pub event_type: Option<String>,
    pub delta: Option<String>,
    pub event: Option<String>,
    pub payload_session_key: Option<String>,
}

/// The state of a streamed chat: the session key the agent reported last.
pub struct ChatStream {
    pub session_key: Option<String>,
}

/// What an event means for the stream: a piece of text to show, and
/// whether the response is complete.
pub struct StreamStep {
    pub chunk: Option<String>,
    pub done: bool,
}

/// The fields of a stream event as text: `type`, `delta`, `event` and
/// `payload.sessionKey`.
pub open spec fn event_fields(e: StreamEvent) -> (
    Option<Seq<char>>,
    Option<Seq<char>>,
    Option<Seq<char>>,
    Option<Seq<char>>,
) {
    (opt_view(e.event_type), opt_view(e.delta), opt_view(e.event), opt_view(e.payload_session_key))
}

/// An event of this type carries a piece of the response text.
pub open spec fn is_text_delta(t: Option<Seq<char>>) -> bool {
    t == Some("response.output_text.delta"@)
}

/// An event of this type completes the response.
pub open spec fn is_completion(t: Option<Seq<char>>) -> bool {
    t == Some("response.completed"@) || t == Some("response.output_text.done"@)
}

/// An agent event that reports a session key.
pub open spec fn is_agent_session(
    f: (Option<Seq<char>>, Option<Seq<char>>, Option<Seq<char>>, Option<Seq<char>>),
) -> bool {
    f.2 == Some("agent"@) && f.3 is Some
}

/// What an event with fields `f` means for the stream: a text delta
/// yields its text, a completion ends the stream.
pub open spec fn step_agrees(
    f: (Option<Seq<char>>, Option<Seq<char>>, Option<Seq<char>>, Option<Seq<char>>),
    st: StreamStep,
) -> bool {
    &&& st.done == is_completion(f.0)
    &&& is_text_delta(f.0) ==> opt_view(st.chunk) == f.1
    &&& !is_text_delta(f.0) ==> st.chunk is None
}

/// The stream's session key after an event with fields `f`: before the
/// end, an agent event with a session key records it.
pub open spec fn stream_key_after(
    f: (Option<Seq<char>>, Option<Seq<char>>, Option<Seq<char>>, Option<Seq<char>>),
    done: bool,
    key: Option<Seq<char>>,
) -> Option<Seq<char>> {
    if !done && is_agent_session(f) {
        f.3
    } else {
        key
    }
}

/// What `serde_json` reads from the data of a stream event: `None` when
/// the data is no JSON; otherwise the string values of its `type`,
/// `delta` and `event` members and of the `sessionKey` member of its
/// `payload` (a member that is absent or holds no string reads as `None`).
pub uninterp spec fn sse_event_fields(data: Seq<char>) -> Option<
    (Option<Seq<char>>, Option<Seq<char>>, Option<Seq<char>>, Option<Seq<char>>),
>;

/// Parses `data` with `serde_json::from_str` into a `serde_json::Value` and
/// reads its members with `Value::get` and `Value::as_str`. The claim is
/// only that the event read is what `sse_event_fields` names for the data;
/// what JSON parsing accepts is not stated.
#[verifier::external_body]
fn stream_event_from_json(data: &str) -> (e: Option<StreamEvent>)
    ensures
        e is Some <==> sse_event_fields(data@) is Some,
        e matches Some(x) ==> event_fields(x) == sse_event_fields(data@)->0,
{
    let v: serde_json::Value = match serde_json::from_str(data) {
        Ok(v) => v,
        Err(_) => return None,
    };
    let field = |o: Option<&serde_json::Value>, key: &str| {
        o.and_then(|x| x.get(key)).and_then(|x| x.as_str()).map(|x| x.to_string())
    };
    let (top, payload) = (Some(&v), v.get("payload"));
    Some(StreamEvent {
        event_type: field(top, "type"),
        delta: field(top, "delta"),
        event: field(top, "event"),
        payload_session_key: field(payload, "sessionKey"),
    })
}

fn is_some_str(o: &Option<String>, lit: &str) -> (b: bool)
    ensures
        b == (o matches Some(s) && s@ == lit@),
{
    match o {
        Some(s) => str_equals(s.as_str(), lit),
        None => false,
    }
}

impl ChatStream {
    /// A stream with no session key yet.
    pub fn new() -> (s: Self)
        ensures
            s.session_key is None,
    {
        ChatStream { session_key: None }
    }

    /// Takes in one event: a text delta yields its text; a completion ends
    /// the stream; otherwise an agent event with a session key records it.
    pub fn handle_event(&mut self, e: &StreamEvent) -> (st: StreamStep)
        ensures
            step_agrees(event_fields(*e), st),
            opt_view(final(self).session_key) == stream_key_after(
                event_fields(*e),
                st.done,
                opt_view(old(self).session_key),
            ),
    {
        proof {
            reveal_strlit("response.output_text.delta");
            reveal_strlit("response.completed");
            reveal_strlit("response.output_text.done");
            assert("response.output_text.delta"@.len() == 26);
            assert("response.completed"@.len() == 18);
            assert("response.output_text.done"@.len() == 25);
        }
        let mut chunk: Option<String> = None;
        if is_some_str(&e.event_type, "response.output_text.delta") {
            chunk = match &e.delta {
                Some(d) => Some(d.clone()),
                None => None,
            };
        } else if is_some_str(&e.event_type, "response.completed") || is_some_str(
            &e.event_type,
            "response.output_text.done",
        ) {
            return StreamStep { chunk: None, done: true };
        }
        if is_some_str(&e.event, "agent") {
            if let Some(k) = &e.payload_session_key {
                self.session_key = Some(k.clone());
            }
        }
        StreamStep { chunk, done: false }
    }
}

impl OpenClawClient {
    /// Takes in one event of a streamed chat: `stream` handles it, and when
    /// it completes the response the client adopts the session key the
    /// stream holds, an absent one included; before that the client's key
    /// stays as it was.
    pub fn handle_stream_event(&mut self, stream: &mut ChatStream, e: &StreamEvent) -> (st:
        StreamStep)
        ensures
            step_agrees(event_fields(*e), st),
            opt_view(final(stream).session_key) == stream_key_after(
                event_fields(*e),
                st.done,
                opt_view(old(stream).session_key),
            ),
            final(self)@.session_key == if st.done {
                opt_view(final(stream).session_key)
            } else {
                old(self)@.session_key
            },
            final(self)@.base_url == old(self)@.base_url,
            final(self)@.token == old(self)@.token,
    {
        let st = stream.handle_event(e);
        if st.done {
            let key = match &stream.session_key {
                Some(k) => Some(k.clone()),
                None => None,
            };
            self.set_session_key(key);
        }
        st
    }

    /// Takes in the data of one line of a streamed chat: data that is no
    /// JSON changes nothing and yields nothing; otherwise the event it holds
    /// is handled as `handle_stream_event` says.
    pub fn handle_stream_line(&mut self, stream: &mut ChatStream, data: &str) -> (r: Option<
        StreamStep,
    >)
        ensures
            match sse_event_fields(data@) {
                None => {
                    &&& r is None
                    &&& opt_view(final(stream).session_key) == opt_view(old(stream).session_key)
                    &&& final(self)@ == old(self)@
                },
                Some(f) => {
                    &&& r matches Some(st) && step_agrees(f, st)
                    &&& opt_view(final(stream).session_key) == stream_key_after(
                        f,
                        r->0.done,
                        opt_view(old(stream).session_key),
                    )
                    &&& final(self)@.session_key == if r->0.done {
                        opt_view(final(stream).session_key)
                    } else {
                        old(self)@.session_key
                    }
                    &&& final(self)@.base_url == old(self)@.base_url
                    &&& final(self)@.token == old(self)@.token
                },
            },
    {
        match stream_event_from_json(data) {
            Some(e) => Some(self.handle_stream_event(stream, &e)),
            None => None,
        }
    }
}

// ---------------------------------------------------------------------
// Laws
// ---------------------------------------------------------------------

/// Splitting loses nothing: the complete lines, each followed by a
/// newline, and then the pending tail, give back the input.
pub open spec fn rejoin(ls: Seq<Seq<u8>>, tail: Seq<u8>) -> Seq<u8>
    decreases ls.len(),
{
    if ls.len() == 0 {
        tail
    } else {
        ls[0] + seq![10u8] + rejoin(ls.drop_first(), tail)
    }
}

/// The complete lines and the pending tail of a byte stream give back the
/// stream, and the tail holds no newline.
pub proof fn law_lines_rejoin(s: Seq<u8>)
    ensures
        rejoin(complete_lines(s), pending_tail(s)) == s,
        no_newline(pending_tail(s)),
    decreases s.len(),
{
    lemma_first_nl_byte(s);
    let k = first_nl_byte(s);
    if k < s.len() {
        law_lines_rejoin(s.skip(k + 1));
        let ls = complete_lines(s);
        assert(ls.drop_first() =~= complete_lines(s.skip(k + 1)));
        assert(s =~= s.take(k) + seq![10u8] + s.skip(k + 1));
    }
}

/// Feeding a stream in two chunks yields the same lines as feeding it at
/// once: the lines of `a + b` are those of `a`, then those of the tail of
/// `a` followed by `b`.
pub proof fn law_chunking_invariant(a: Seq<u8>, b: Seq<u8>)
    ensures
        complete_lines(a + b) == complete_lines(a) + complete_lines(pending_tail(a) + b),
        pending_tail(a + b) == pending_tail(pending_tail(a) + b),
    decreases a.len(),
{
    lemma_first_nl_byte(a);
    let k = first_nl_byte(a);
    if k < a.len() {
        let ab = a + b;
        assert forall|j: int| 0 <= j < k implies ab[j] != 10u8 by {
            assert(ab[j] == a[j]);
        }
        assert(ab[k] == a[k]);
        lemma_first_nl_byte_at(ab, k);
        assert(ab.take(k) =~= a.take(k));
        assert(ab.skip(k + 1) =~= a.skip(k + 1) + b);
        law_chunking_invariant(a.skip(k + 1), b);
        assert(complete_lines(a + b) =~= complete_lines(a) + complete_lines(pending_tail(a) + b));
    } else {
        assert(complete_lines(a) =~= Seq::<Seq<u8>>::empty());
        assert(complete_lines(a + b) =~= complete_lines(a) + complete_lines(pending_tail(a) + b));
    }
}

/// The text of blocks put one after the other is the text of the first
/// blocks followed by the text of the others.
pub proof fn law_blocks_text_concat(a: Seq<ContentBlock>, b: Seq<ContentBlock>)
    ensures
        blocks_text(a + b) == blocks_text(a) + blocks_text(b),
    decreases b.len(),
{
    if b.len() == 0 {
        assert(a + b =~= a);
        assert(blocks_text(a) + seq![] =~= blocks_text(a));
    } else {
        assert((a + b).drop_last() =~= a + b.drop_last());
        assert((a + b).last() == b.last());
        law_blocks_text_concat(a, b.drop_last());
        assert(blocks_text(a) + blocks_text(b.drop_last()) + (if b.last().content_type@
            == "output_text"@ {
            opt_text(b.last().text)
        } else {
            seq![]
        }) =~= blocks_text(a) + blocks_text(b));
    }
}

/// A single block contributes its text when it is an `output_text` block,
/// and nothing otherwise.
pub proof fn law_block_text(b: ContentBlock)
    ensures
        blocks_text(seq![b]) == if b.content_type@ == "output_text"@ {
            opt_text(b.text)
        } else {
            seq![]
        },
{
    let e = Seq::<ContentBlock>::empty();
    assert(seq![b].drop_last() =~= e);
    assert(seq![b].last() == b);
    assert(blocks_text(e) == Seq::<char>::empty());
    assert(Seq::<char>::empty() + opt_text(b.text) =~= opt_text(b.text));
    assert(Seq::<char>::empty() + Seq::<char>::empty() =~= Seq::<char>::empty());
}

/// Appending a block appends its text when it is an `output_text` block:
/// every such block counts, in order.
pub proof fn law_blocks_text_push(bs: Seq<ContentBlock>, b: ContentBlock)
    ensures
        blocks_text(bs.push(b)) == blocks_text(bs) + if b.content_type@ == "output_text"@ {
            opt_text(b.text)
        } else {
            seq![]
        },
{
    law_blocks_text_concat(bs, seq![b]);
    law_block_text(b);
    assert(bs.push(b) =~= bs + seq![b]);
}

/// The text of items put one after the other is the text of the first
/// items followed by the text of the others.
pub proof fn law_response_text_concat(a: Seq<OutputItem>, b: Seq<OutputItem>)
    ensures
        response_text(a + b) == response_text(a) + response_text(b),
    decreases b.len(),
{
    if b.len() == 0 {
        assert(a + b =~= a);
        assert(response_text(a) + seq![] =~= response_text(a));
    } else {
        assert((a + b).drop_last() =~= a + b.drop_last());
        assert((a + b).last() == b.last());
        law_response_text_concat(a, b.drop_last());
        assert(response_text(a) + response_text(b.drop_last()) + item_text(b.last())
            =~= response_text(a) + response_text(b));
    }
}

} // verus!
