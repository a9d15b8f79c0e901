//! Speech recognition (Vosk) messages and what the assistant makes of them:
//! connection URLs, partial and final results, the text a verification
//! round recognises, what a microphone-input session reports and when it
//! stops, and the lines `arecord -l` lists.
use vstd::prelude::*;
use crate::text::{join_seqs, lemma_join_push, lines, starts_with_seq};
use crate::text_io::{lines_of, utf8_lossy, utf8_lossy_decode};

verus! {

/// One text message of the recognition service, as far as the assistant
/// reads it: the `"partial"` and `"text"` strings, and for each entry of a
/// `"result"` array its `"word"` string, when present.
pub struct AsrMessage {
    pub partial: Option<String>,
    pub text: Option<String>,
    pub result: Option<Vec<Option<String>>>,
}

/// A recognised piece of speech.
#[derive(Debug, Clone)]
pub struct AsrResult {
    pub text: String,
    pub is_final: bool,
}

/// A recognised piece of speech, as sent to the user interface.
#[derive(Clone)]
pub struct VoiceResult {
    pub text: String,
    pub is_final: bool,
}

/// A recognition failure, as sent to the user interface.
#[derive(Clone)]
pub struct VoiceError {
    pub message: String,
}

/// Where the recognition service listens, and its optional API key.
#[derive(Clone)]
pub struct VoiceRecognitionConfig {
    pub url: String,
    pub api_key: Option<String>,
}

impl CaptureEvent {
    /// The event a text message of the recognition service makes: the
    /// message it holds, or `Other` when it is no JSON.
    pub fn from_text(text: &str) -> (e: CaptureEvent)
        ensures
            match asr_json_fields(text@) {
                Some(f) => e matches CaptureEvent::Message(m) && message_fields(m) == f,
                None => e is Other,
            },
    {
        match asr_message_from_json(text) {
            Some(m) => CaptureEvent::Message(m),
            None => CaptureEvent::Other,
        }
    }
}

/// What happened during a microphone-input session.
pub enum CaptureEvent {
    /// The user stopped the session.
    StopRequested,
    /// A timer fired, `ms_since_audio` milliseconds after audio last arrived.
    Tick { ms_since_audio: u64 },
    /// A text message of the recognition service, as read from its JSON.
    Message(AsrMessage),
    /// The service closed the connection, or the stream ended.
    Closed,
    /// Anything else the connection delivered: another kind of message, a
    /// text that is no JSON object, or a read error.
    Other,
}

/// What one event of a microphone-input session yields: a result for the
/// interface, and whether the session stops.
pub struct CaptureOutcome {
    pub emit: Option<VoiceResult>,
    pub stop: bool,
}

/// A client of the Vosk recognition service.
pub struct VoskAsrClient {
    url: String,
    api_key: Option<String>,
}

// ---------------------------------------------------------------------
// Models
// ---------------------------------------------------------------------

pub open spec fn opt_view(o: Option<String>) -> Option<Seq<char>> {
    match o {
        Some(s) => Some(s@),
        None => None,
    }
}

/// The service URL with the API key appended as a query parameter, when
/// there is one.
pub open spec fn url_with_key(url: Seq<char>, api_key: Option<Seq<char>>) -> Seq<char> {
    match api_key {
        Some(k) => url + "?api_key="@ + k,
        None => url,
    }
}

/// The fields of a recognition message as text: its `"partial"` and
/// `"text"` strings, and the `"word"` of each entry of its `"result"` array.
pub open spec fn message_fields(m: AsrMessage) -> (
    Option<Seq<char>>,
    Option<Seq<char>>,
    Option<Seq<Option<Seq<char>>>>,
) {
    (
        opt_view(m.partial),
        opt_view(m.text),
        match m.result {
            Some(r) => Some(r@.map_values(|w: Option<String>| opt_view(w))),
            None => None,
        },
    )
}

/// The result that a message with fields `f` reports: a non-empty
/// `"partial"` as a partial result; without `"partial"`, a non-empty
/// `"text"` as a final one.
pub open spec fn fields_result(
    f: (Option<Seq<char>>, Option<Seq<char>>, Option<Seq<Option<Seq<char>>>>),
) -> Option<(Seq<char>, bool)> {
    match f.0 {
        Some(p) => if p.len() > 0 {
            Some((p, false))
        } else {
            None
        },
        None => match f.1 {
            Some(t) => if t.len() > 0 {
                Some((t, true))
            } else {
                None
            },
            None => None,
        },
    }
}

/// The result a message reports: a non-empty `"partial"` as a partial
/// result; without `"partial"`, a non-empty `"text"` as a final one.
pub open spec fn asr_result_spec(m: AsrMessage) -> Option<(Seq<char>, bool)> {
    match m.partial {
        Some(p) => if p@.len() > 0 {
            Some((p@, false))
        } else {
            None
        },
        None => match m.text {
            Some(t) => if t@.len() > 0 {
                Some((t@, true))
            } else {
                None
            },
            None => None,
        },
    }
}

/// The words present among the entries of a `"result"` array.
pub open spec fn present_words(ws: Seq<Option<String>>) -> Seq<Seq<char>>
    decreases ws.len(),
{
    if ws.len() == 0 {
        seq![]
    } else {
        let rest = present_words(ws.drop_last());
        match ws.last() {
            Some(w) => rest.push(w@),
            None => rest,
        }
    }
}

/// The present words joined with single spaces.
pub open spec fn words_text(ws: Seq<Option<String>>) -> Seq<char> {
    join_seqs(present_words(ws), " "@)
}

/// The text recognised so far during wake-word verification, after
/// `m`: a non-empty `"result"` array gives its words and ends the round;
/// otherwise a non-empty `"partial"` replaces the text.
pub open spec fn verify_update_spec(recognized: Seq<char>, m: AsrMessage) -> (Seq<char>, bool) {
    match m.result {
        Some(r) if r@.len() > 0 => (words_text(r@), true),
        _ => match m.partial {
            Some(p) if p@.len() > 0 => (p@, false),
            _ => (recognized, false),
        },
    }
}

/// What a microphone-input session reports for `m`: a non-empty
/// `"result"` array as a final result; without `"result"`, any `"partial"`
/// as a partial one.
pub open spec fn capture_result_spec(m: AsrMessage) -> Option<(Seq<char>, bool)> {
    match m.result {
        Some(r) => if r@.len() > 0 {
            Some((words_text(r@), true))
        } else {
            None
        },
        None => match m.partial {
            Some(p) => Some((p@, false)),
            None => None,
        },
    }
}

/// What a microphone-input session reports after `e`, and whether it
/// stops: a stop request, or the end of the connection, stops it; a timer
/// that finds the silence reached `timeout_ms` reports an empty final
/// result and stops it; a message reports its result and goes on.
pub open spec fn capture_step_spec(e: CaptureEvent, timeout_ms: u64) -> (
    Option<(Seq<char>, bool)>,
    bool,
) {
    match e {
        CaptureEvent::StopRequested => (None, true),
        CaptureEvent::Tick { ms_since_audio } => if ms_since_audio >= timeout_ms {
            (Some((Seq::<char>::empty(), true)), true)
        } else {
            (None, false)
        },
        CaptureEvent::Message(m) => (capture_result_spec(m), false),
        CaptureEvent::Closed => (None, true),
        CaptureEvent::Other => (None, false),
    }
}

/// The lines of `arecord -l` output that describe a capture card.
pub open spec fn card_lines(ls: Seq<Seq<char>>) -> Seq<Seq<char>> {
    ls.filter(|l: Seq<char>| starts_with_seq(l, "card "@))
}

// ---------------------------------------------------------------------
// Trusted boundary: `serde_json`
// ---------------------------------------------------------------------

/// What `serde_json` reads from the text of a recognition message: `None`
/// when the text is no JSON; otherwise the string values of its
/// `"partial"` and `"text"` members and, when its `"result"` member is an
/// array, the string value of each entry's `"word"` member (a member that
/// is absent or holds no string reads as `None`).
pub uninterp spec fn asr_json_fields(text: Seq<char>) -> Option<
    (Option<Seq<char>>, Option<Seq<char>>, Option<Seq<Option<Seq<char>>>>),
>;

/// Parses `text` with `serde_json::from_str` into a `serde_json::Value` and
/// reads its members with `Value::get`, `Value::as_str` and
/// `Value::as_array`. The claim is only that the message read is what
/// `asr_json_fields` names for the text; what JSON parsing accepts is not
/// stated.
#[verifier::external_body]
pub(crate) fn asr_message_from_json(text: &str) -> (m: Option<AsrMessage>)
    ensures
        m is Some <==> asr_json_fields(text@) is Some,
        m matches Some(x) ==> message_fields(x) == asr_json_fields(text@)->0,
{
    let v: serde_json::Value = match serde_json::from_str(text) {
        Ok(v) => v,
        Err(_) => return None,
    };
    let field = |key: &str| v.get(key).and_then(|x| x.as_str()).map(|x| x.to_string());
    let word = |e: &serde_json::Value| e.get("word").and_then(|x| x.as_str()).map(|x| x.to_string());
    let result = v.get("result").and_then(|r| r.as_array()).map(|a| a.iter().map(word).collect());
    Some(AsrMessage { partial: field("partial"), text: field("text"), result })
}

// ---------------------------------------------------------------------
// Functions
// ---------------------------------------------------------------------

/// The result that a text of the recognition service reports, if any: none
/// when it is no JSON, else that of its `"partial"` and `"text"` members.
pub fn asr_result_of_json(text: &str) -> (r: Option<AsrResult>)
    ensures
        match asr_json_fields(text@) {
            Some(f) => match fields_result(f) {
                Some((t, fin)) => r is Some && r->0.text@ == t && r->0.is_final == fin,
                None => r is None,
            },
            None => r is None,
        },
{
    match asr_message_from_json(text) {
        Some(m) => asr_result_of(&m),
        None => None,
    }
}

fn copy_opt(o: Option<&str>) -> (r: Option<String>)
    ensures
        opt_view(r) == match o {
            Some(s) => Some(s@),
            None => None::<Seq<char>>,
        },
{
    match o {
        Some(s) => Some(String::from_str(s)),
        None => None,
    }
}

/// The recognition URL with an optional API key as query parameter.
pub fn asr_url_with_key(url: &str, api_key: Option<&str>) -> (r: String)
    ensures
        r@ == url_with_key(
            url@,
            match api_key {
                Some(k) => Some(k@),
                None => None,
            },
        ),
{
    let mut r = String::from_str(url);
    if let Some(k) = api_key {
        r.append("?api_key=");
        r.append(k);
    }
    r
}

/// The recognition URL, with the API key as query parameter unless it is empty.
pub fn asr_url_unless_empty(url: &str, api_key: &str) -> (r: String)
    ensures
        r@ == url_with_key(
            url@,
            if api_key@.len() == 0 {
                None
            } else {
                Some(api_key@)
            },
        ),
{
    if api_key.is_empty() {
        asr_url_with_key(url, None)
    } else {
        asr_url_with_key(url, Some(api_key))
    }
}

impl View for VoskAsrClient {
    type V = (Seq<char>, Option<Seq<char>>);

    closed spec fn view(&self) -> (Seq<char>, Option<Seq<char>>) {
        (self.url@, opt_view(self.api_key))
    }
}

impl VoskAsrClient {
    /// A client for the service at `url`, with an optional API key.
    pub fn new(url: &str, api_key: Option<&str>) -> (c: Self)
        ensures
            c@.0 == url@,
            c@.1 == match api_key {
                Some(k) => Some(k@),
                None => None::<Seq<char>>,
            },
    {
        VoskAsrClient { url: String::from_str(url), api_key: copy_opt(api_key) }
    }

    /// The URL the client connects to.
    pub fn connection_url(&self) -> (r: String)
        ensures
            r@ == url_with_key(self@.0, self@.1),
    {
        match &self.api_key {
            Some(k) => asr_url_with_key(self.url.as_str(), Some(k.as_str())),
            None => asr_url_with_key(self.url.as_str(), None),
        }
    }
}

impl VoiceRecognitionConfig {
    /// The URL a microphone-input session connects to.
    pub fn connection_url(&self) -> (r: String)
        ensures
            r@ == url_with_key(self.url@, opt_view(self.api_key)),
    {
        match &self.api_key {
            Some(k) => asr_url_with_key(self.url.as_str(), Some(k.as_str())),
            None => asr_url_with_key(self.url.as_str(), None),
        }
    }
}

/// The result that message `m` reports, if any.
pub fn asr_result_of(m: &AsrMessage) -> (r: Option<AsrResult>)
    ensures
        match asr_result_spec(*m) {
            Some((t, f)) => r is Some && r->0.text@ == t && r->0.is_final == f,
            None => r is None,
        },
{
    match &m.partial {
        Some(p) => {
            if p.as_str().is_empty() {
                None
            } else {
                Some(AsrResult { text: p.clone(), is_final: false })
            }
        },
        None => match &m.text {
            Some(t) => {
                if t.as_str().is_empty() {
                    None
                } else {
                    Some(AsrResult { text: t.clone(), is_final: true })
                }
            },
            None => None,
        },
    }
}

/// The words present in a `"result"` array, joined with single spaces.
pub fn join_words(words: &[Option<String>]) -> (r: String)
    ensures
        r@ == words_text(words@),
{
    let mut r = String::new();
    let ghost mut parts: Seq<Seq<char>> = seq![];
    let mut any = false;
    let mut i: usize = 0;
    assert(words@.take(0) =~= Seq::<Option<String>>::empty());
    while i < words.len()
        invariant
            i <= words@.len(),
            any == (parts.len() > 0),
            parts == present_words(words@.take(i as int)),
            r@ == join_seqs(parts, " "@),
        decreases words@.len() - i,
    {
        assert(words@.take(i + 1).drop_last() =~= words@.take(i as int));
        match &words[i] {
            Some(w) => {
                proof {
                    lemma_join_push(parts, " "@, w@);
                }
                if any {
                    r.append(" ");
                }
                r.append(w.as_str());
                any = true;
                proof {
                    parts = parts.push(w@);
                }
            },
            None => {},
        }
        i = i + 1;
    }
    assert(words@.take(words@.len() as int) =~= words@);
    r
}

/// Updates the text recognised during wake-word verification with message
/// `m`; returns whether the round is over.
pub fn verify_update(recognized: &mut String, m: &AsrMessage) -> (done: bool)
    ensures
        (final(recognized)@, done) == verify_update_spec(old(recognized)@, *m),
{
    if let Some(r) = &m.result {
        if r.len() > 0 {
            *recognized = join_words(r.as_slice());
            return true;
        }
    }
    if let Some(p) = &m.partial {
        if !p.as_str().is_empty() {
            *recognized = p.clone();
        }
    }
    false
}

/// What a microphone-input session reports for message `m`, if anything.
pub fn capture_result(m: &AsrMessage) -> (r: Option<VoiceResult>)
    ensures
        match capture_result_spec(*m) {
            Some((t, f)) => r is Some && r->0.text@ == t && r->0.is_final == f,
            None => r is None,
        },
{
    match &m.result {
        Some(r) => {
            if r.len() > 0 {
                Some(VoiceResult { text: join_words(r.as_slice()), is_final: true })
            } else {
                None
            }
        },
        None => match &m.partial {
            Some(p) => Some(VoiceResult { text: p.clone(), is_final: false }),
            None => None,
        },
    }
}

/// One event of a microphone-input session: the result to report, and
/// whether the session stops.
pub fn capture_step(e: &CaptureEvent, timeout_ms: u64) -> (o: CaptureOutcome)
    ensures
        o.stop == capture_step_spec(*e, timeout_ms).1,
        match capture_step_spec(*e, timeout_ms).0 {
            Some((t, f)) => o.emit is Some && o.emit->0.text@ == t && o.emit->0.is_final == f,
            None => o.emit is None,
        },
{
    match e {
        CaptureEvent::StopRequested => CaptureOutcome { emit: None, stop: true },
        CaptureEvent::Tick { ms_since_audio } => {
            if *ms_since_audio >= timeout_ms {
                CaptureOutcome {
                    emit: Some(VoiceResult { text: String::new(), is_final: true }),
                    stop: true,
                }
            } else {
                CaptureOutcome { emit: None, stop: false }
            }
        },
        CaptureEvent::Message(m) => CaptureOutcome { emit: capture_result(m), stop: false },
        CaptureEvent::Closed => CaptureOutcome { emit: None, stop: true },
        CaptureEvent::Other => CaptureOutcome { emit: None, stop: false },
    }
}

/// The capture cards that `arecord -l` lists in its output `stdout`.
pub fn microphones_from_listing(stdout: &[u8]) -> (r: Vec<String>)
    ensures
        r@.map_values(|s: String| s@) == card_lines(lines(utf8_lossy_decode(stdout@))),
{
    let text = utf8_lossy(stdout);
    let all = lines_of(text.as_str());
    let mut r: Vec<String> = Vec::new();
    let ghost pred = |l: Seq<char>| starts_with_seq(l, "card "@);
    let ghost views = all@.map_values(|s: String| s@);
    let mut i: usize = 0;
    assert(views.take(0) =~= Seq::<Seq<char>>::empty());
    while i < all.len()
        invariant
            i <= all@.len(),
            views == all@.map_values(|s: String| s@),
            views == lines(text@),
            pred == (|l: Seq<char>| starts_with_seq(l, "card "@)),
            text@ == utf8_lossy_decode(stdout@),
            r@.map_values(|s: String| s@) == views.take(i as int).filter(pred),
        decreases all@.len() - i,
    {
        reveal_with_fuel(Seq::filter, 1);
        let ghost t1 = views.take(i + 1);
        assert(t1.drop_last() =~= views.take(i as int));
        assert(t1.last() == all@[i as int]@);
        assert(t1.filter(pred) == if pred(t1.last()) {
            t1.drop_last().filter(pred).push(t1.last())
        } else {
            t1.drop_last().filter(pred)
        });
        let is_card = crate::text_io::starts_with_str(all[i].as_str(), "card ");
        assert(pred(t1.last()) == is_card);
        if is_card {
            let ghost before = r@;
            r.push(all[i].clone());
            assert(r@.map_values(|s: String| s@) =~= before.map_values(|s: String| s@).push(
                all@[i as int]@,
            ));
        }
        i = i + 1;
    }
    assert(views.take(all@.len() as int) =~= views);
    r
}

// ---------------------------------------------------------------------
// Laws
// ---------------------------------------------------------------------

/// During verification, a message without a non-empty `"result"` array but
/// with a non-empty `"partial"` makes that partial the recognised text,
/// whatever was recognised before, and the round goes on.
pub proof fn law_partial_replaces_recognized(before: Seq<char>, other: Seq<char>, m: AsrMessage)
    requires
        !(m.result matches Some(r) && r@.len() > 0),
        m.partial matches Some(p) && p@.len() > 0,
    ensures
        verify_update_spec(before, m).0 == m.partial->0@,
        !verify_update_spec(before, m).1,
        verify_update_spec(before, m) == verify_update_spec(other, m),
{
}

/// A non-empty `"result"` array ends the verification round with its words,
/// whatever was recognised before.
pub proof fn law_result_ends_verification(before: Seq<char>, m: AsrMessage)
    requires
        m.result matches Some(r) && r@.len() > 0,
    ensures
        verify_update_spec(before, m) == (words_text(m.result->0@), true),
{
}

/// A message with neither a non-empty `"result"` array nor a non-empty
/// `"partial"` keeps the recognised text and the round going.
pub proof fn law_empty_message_keeps_recognized(before: Seq<char>, m: AsrMessage)
    requires
        !(m.result matches Some(r) && r@.len() > 0),
        !(m.partial matches Some(p) && p@.len() > 0),
    ensures
        verify_update_spec(before, m) == (before, false),
{
}

/// A timer tick stops a microphone-input session with an empty final
/// result exactly when the silence has reached the timeout, and reports
/// nothing otherwise.
pub proof fn law_capture_silence_timeout(ms_since_audio: u64, timeout_ms: u64)
    ensures
        capture_step_spec(CaptureEvent::Tick { ms_since_audio }, timeout_ms).1 <==> ms_since_audio
            >= timeout_ms,
        ms_since_audio >= timeout_ms ==> capture_step_spec(
            CaptureEvent::Tick { ms_since_audio },
            timeout_ms,
        ).0 == Some((Seq::<char>::empty(), true)),
        ms_since_audio < timeout_ms ==> capture_step_spec(
            CaptureEvent::Tick { ms_since_audio },
            timeout_ms,
        ).0 is None,
{
}

/// Longer silence never keeps a session going that shorter silence stopped.
pub proof fn law_capture_silence_monotone(shorter: u64, longer: u64, timeout_ms: u64)
    requires
        shorter <= longer,
        capture_step_spec(CaptureEvent::Tick { ms_since_audio: shorter }, timeout_ms).1,
    ensures
        capture_step_spec(CaptureEvent::Tick { ms_since_audio: longer }, timeout_ms).1,
{
}

/// A stop request or the end of the connection always stops the session
/// and reports nothing; a message never stops it.
pub proof fn law_capture_stops(m: AsrMessage, timeout_ms: u64)
    ensures
        capture_step_spec(CaptureEvent::StopRequested, timeout_ms) == (
            None::<(Seq<char>, bool)>,
            true,
        ),
        capture_step_spec(CaptureEvent::Closed, timeout_ms) == (None::<(Seq<char>, bool)>, true),
        !capture_step_spec(CaptureEvent::Message(m), timeout_ms).1,
{
}


/// A message reports a non-empty text: as a partial result its
/// `"partial"`, and as a final result its `"text"`, which counts only when
/// the message has no `"partial"`.
pub proof fn law_asr_result_fields(m: AsrMessage)
    ensures
        asr_result_spec(m) matches Some((x, fin)) ==> {
            &&& x.len() > 0
            &&& fin ==> m.partial is None && opt_view(m.text) == Some(x)
            &&& !fin ==> opt_view(m.partial) == Some(x)
        },
        (m.partial matches Some(p) && p@.len() > 0) ==> asr_result_spec(m) == Some(
            (m.partial->0@, false),
        ),
        (m.partial is None && (m.text matches Some(t) && t@.len() > 0)) ==> asr_result_spec(m)
            == Some((m.text->0@, true)),
        asr_result_spec(m) == fields_result(message_fields(m)),
{
}

/// A microphone-input session reports a non-empty `"result"` array as a
/// final result of its words; without `"result"`, a `"partial"` as a
/// partial result; an empty array reports nothing.
pub proof fn law_capture_message_result(m: AsrMessage)
    ensures
        (m.result matches Some(r) && r@.len() > 0) ==> capture_result_spec(m) == Some(
            (words_text(m.result->0@), true),
        ),
        (m.result matches Some(r) && r@.len() == 0) ==> capture_result_spec(m) is None,
        (m.result is None && m.partial is Some) ==> capture_result_spec(m) == Some(
            (m.partial->0@, false),
        ),
        (m.result is None && m.partial is None) ==> capture_result_spec(m) is None,
{
}

/// A present word is kept, in order, and an absent one is skipped.
pub proof fn law_present_words_push(ws: Seq<Option<String>>, w: Option<String>)
    ensures
        present_words(ws.push(w)) == match w {
            Some(s) => present_words(ws).push(s@),
            None => present_words(ws),
        },
{
    assert(ws.push(w).drop_last() =~= ws);
}

} // verus!
