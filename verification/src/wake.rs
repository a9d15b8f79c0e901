//! Voice wake-up: the service state with its error counter and fallback
//! mode, the wake-loop state machine (idle, verifying, waking, listening)
//! with the states it announces and its stop, and the decisions taken on
//! each message of the recognition service.
use vstd::prelude::*;
use crate::asr::{
    asr_json_fields, asr_message_from_json, asr_result_of, asr_result_spec, asr_url_unless_empty,
    message_fields, url_with_key, verify_update, verify_update_spec, AsrMessage, VoiceResult,
};
use crate::keyword::{
    contains_end_word, fuzzy_match_keyword, fuzzy_match_spec, has_end_word, pinyin_variants,
    unicode_lowercase, variant_hit_at,
};
use crate::text::{occurs_at, trim};

verus! {

// ---------------------------------------------------------------------
// Errors
// ---------------------------------------------------------------------

/// Failures of the voice wake-up service.
#[derive(Debug, Clone, PartialEq)]
pub enum VoiceWakeError {
    AsrUnavailable,
    AudioDeviceError,
    NetworkError,
    Timeout,
    Other(String),
}

/// The message shown for an error.
pub open spec fn error_message(e: VoiceWakeError) -> Seq<char> {
    match e {
        VoiceWakeError::AsrUnavailable => "ASR 服务不可用"@,
        VoiceWakeError::AudioDeviceError => "音频设备错误"@,
        VoiceWakeError::NetworkError => "网络连接错误"@,
        VoiceWakeError::Timeout => "操作超时"@,
        VoiceWakeError::Other(m) => m@,
    }
}

impl VoiceWakeError {
    /// The message shown for this error.
    pub fn message(&self) -> (s: String)
        ensures
            s@ == error_message(*self),
    {
        match self {
            VoiceWakeError::AsrUnavailable => String::from_str("ASR 服务不可用"),
            VoiceWakeError::AudioDeviceError => String::from_str("音频设备错误"),
            VoiceWakeError::NetworkError => String::from_str("网络连接错误"),
            VoiceWakeError::Timeout => String::from_str("操作超时"),
            VoiceWakeError::Other(m) => m.clone(),
        }
    }
}

// ---------------------------------------------------------------------
// Service state
// ---------------------------------------------------------------------

/// How the service degrades after repeated failures. The energy threshold
/// of the fallback detector is a float and is kept by the application.
pub struct FallbackConfig {
    pub enable_energy_only: bool,
    pub max_retries: u32,
    pub retry_interval_ms: u64,
}

impl Default for FallbackConfig {
    fn default() -> (c: Self)
        ensures
            c.enable_energy_only,
            c.max_retries == 3,
            c.retry_interval_ms == 500,
    {
        FallbackConfig { enable_energy_only: true, max_retries: 3, retry_interval_ms: 500 }
    }
}

/// Whether the wake-up service runs, how many errors it met since the last
/// reset, and whether it has fallen back to energy-only detection.
pub struct VoiceWakeState {
    pub is_running: bool,
    pub error_count: u32,
    pub fallback_config: FallbackConfig,
    pub is_fallback_mode: bool,
}

/// The state after one more error.
pub open spec fn after_error(s: VoiceWakeState) -> VoiceWakeState {
    let count = (s.error_count + 1) as u32;
    VoiceWakeState {
        is_running: s.is_running,
        error_count: count,
        fallback_config: s.fallback_config,
        is_fallback_mode: s.is_fallback_mode || count >= s.fallback_config.max_retries,
    }
}

/// The state after `k` more errors.
pub open spec fn after_errors(s: VoiceWakeState, k: nat) -> VoiceWakeState
    decreases k,
{
    if k == 0 {
        s
    } else {
        after_error(after_errors(s, (k - 1) as nat))
    }
}

impl VoiceWakeState {
    /// A stopped service with no errors, default fallback settings and no fallback.
    pub fn new() -> (s: Self)
        ensures
            !s.is_running,
            s.error_count == 0,
            s.fallback_config.enable_energy_only,
            s.fallback_config.max_retries == 3,
            s.fallback_config.retry_interval_ms == 500,
            !s.is_fallback_mode,
    {
        VoiceWakeState {
            is_running: false,
            error_count: 0,
            fallback_config: FallbackConfig::default(),
            is_fallback_mode: false,
        }
    }

    /// Counts one error; switches to fallback mode once the count reaches
    /// the retry limit, and returns whether it did so now.
    pub fn record_error(&mut self) -> (fell_back: bool)
        requires
            old(self).error_count < u32::MAX,
        ensures
            *final(self) == after_error(*old(self)),
            fell_back == (final(self).error_count >= old(self).fallback_config.max_retries),
    {
        self.error_count = self.error_count + 1;
        if self.error_count >= self.fallback_config.max_retries {
            self.is_fallback_mode = true;
            return true;
        }
        false
    }

    /// Clears the error count; fallback mode stays as it is.
    pub fn reset_error(&mut self)
        ensures
            final(self).error_count == 0,
            final(self).is_running == old(self).is_running,
            final(self).fallback_config == old(self).fallback_config,
            final(self).is_fallback_mode == old(self).is_fallback_mode,
    {
        self.error_count = 0;
    }

    /// Whether the service has fallen back to energy-only detection.
    pub fn is_in_fallback(&self) -> (b: bool)
        ensures
            b == self.is_fallback_mode,
    {
        self.is_fallback_mode
    }

    /// Marks the service running; returns whether it was stopped, that is,
    /// whether the wake loop has to be started now.
    pub fn begin_running(&mut self) -> (start_loop: bool)
        ensures
            start_loop == !old(self).is_running,
            final(self).is_running,
            final(self).error_count == old(self).error_count,
            final(self).fallback_config == old(self).fallback_config,
            final(self).is_fallback_mode == old(self).is_fallback_mode,
    {
        if self.is_running {
            return false;
        }
        self.is_running = true;
        true
    }

    /// Marks the service stopped.
    pub fn end_running(&mut self)
        ensures
            !final(self).is_running,
            final(self).error_count == old(self).error_count,
            final(self).fallback_config == old(self).fallback_config,
            final(self).is_fallback_mode == old(self).is_fallback_mode,
    {
        self.is_running = false;
    }
}

// ---------------------------------------------------------------------
// Wake loop
// ---------------------------------------------------------------------

/// Milliseconds after a wake-up during which loud audio starts no new one.
pub const WAKE_COOLDOWN_MS: u64 = 2000;

/// Phase of the wake loop.
#[derive(Debug, Clone, Copy, PartialEq, Eq, Structural)]
pub enum WakeLoopState {
    /// Waiting for audio loud enough to be speech.
    Idle,
    /// Asking the recognition service whether the speech was the wake word.
    Verifying,
    /// Announcing the wake-up and playing the spoken response.
    Waking,
    /// Streaming the user's request to the recognition service.
    Listening,
}

/// The states the interface is told of, in the order a wake-up session
/// passes through them.
#[derive(Debug, Clone, Copy, PartialEq, Eq, Structural)]
pub enum VoiceState {
    Idle,
    Waking,
    Listening,
    Processing,
}

/// The name the interface knows a state by.
pub open spec fn voice_state_name(s: VoiceState) -> Seq<char> {
    match s {
        VoiceState::Idle => "idle"@,
        VoiceState::Waking => "waking"@,
        VoiceState::Listening => "listening"@,
        VoiceState::Processing => "processing"@,
    }
}

impl VoiceState {
    /// The name the interface knows this state by.
    pub fn name(&self) -> (n: String)
        ensures
            n@ == voice_state_name(*self),
    {
        match self {
            VoiceState::Idle => String::from_str("idle"),
            VoiceState::Waking => String::from_str("waking"),
            VoiceState::Listening => String::from_str("listening"),
            VoiceState::Processing => String::from_str("processing"),
        }
    }
}

/// The wake loop: its phase, whether the current listening session
/// follows a wake-up, whether the service asked it to stop, and the
/// settings it decides with.
pub struct WakeLoop {
    pub state: WakeLoopState,
    pub wake_listening: bool,
    pub stopped: bool,
    pub wake_word: String,
    pub vosk_url: String,
    pub vosk_api_key: String,
}

/// What the application observed while the loop was in its current phase.
pub enum WakeEvent {
    /// No audio frame was waiting.
    NoAudio,
    /// An audio frame arrived; `loud` tells whether its energy exceeds the
    /// detection threshold.
    AudioFrame { loud: bool, ms_since_last_wake: u64 },
    /// The verification round ended, with the recognised text or a failure.
    VerifyFinished { recognized: Option<String> },
    /// The spoken response to the wake-up has been played.
    ResponsePlayed,
    /// The connection to the recognition service for the listening session is open.
    AsrConnected,
    /// The listening session with the recognition service has ended.
    ProcessingFinished,
    /// The service was stopped.
    StopRequested,
}

/// What the application has to do next.
pub enum WakeAction {
    /// Wait a moment and poll the audio again.
    Poll,
    /// Nothing; keep going.
    Ignore,
    /// Note the wake time, keep the frame, collect more audio and ask the
    /// recognition service at `asr_url` what was said.
    Verify { asr_url: String },
    /// Not the wake word: back to waiting.
    Dismiss,
    /// Announce the wake-up, play the response and drop stale audio.
    Announce,
    /// Stream the user's speech to the recognition service at `asr_url`.
    Listen { asr_url: String },
    /// Receive recognition results until the session ends.
    Receive,
    /// Tell the interface the session ended; when `input_complete`, also
    /// that the spoken input is complete.
    Finish { input_complete: bool },
    /// Stop capturing audio and leave the loop.
    Exit,
}

/// `WakeAction` with its text as characters.
pub enum WakeActionView {
    Poll,
    Ignore,
    Verify { asr_url: Seq<char> },
    Dismiss,
    Announce,
    Listen { asr_url: Seq<char> },
    Receive,
    Finish { input_complete: bool },
    Exit,
}

impl View for WakeAction {
    type V = WakeActionView;

    open spec fn view(&self) -> WakeActionView {
        match self {
            WakeAction::Poll => WakeActionView::Poll,
            WakeAction::Ignore => WakeActionView::Ignore,
            WakeAction::Verify { asr_url } => WakeActionView::Verify { asr_url: asr_url@ },
            WakeAction::Dismiss => WakeActionView::Dismiss,
            WakeAction::Announce => WakeActionView::Announce,
            WakeAction::Listen { asr_url } => WakeActionView::Listen { asr_url: asr_url@ },
            WakeAction::Receive => WakeActionView::Receive,
            WakeAction::Finish { input_complete } => WakeActionView::Finish {
                input_complete: *input_complete,
            },
            WakeAction::Exit => WakeActionView::Exit,
        }
    }
}

/// The state the interface is told of when the application carries out `a`.
pub open spec fn action_notice(a: WakeActionView) -> Option<VoiceState> {
    match a {
        WakeActionView::Announce => Some(VoiceState::Waking),
        WakeActionView::Listen { .. } => Some(VoiceState::Listening),
        WakeActionView::Receive => Some(VoiceState::Processing),
        WakeActionView::Finish { .. } => Some(VoiceState::Idle),
        _ => None,
    }
}

impl WakeAction {
    /// The state the interface is told of when this action is carried out.
    pub fn state_notice(&self) -> (n: Option<VoiceState>)
        ensures
            n == action_notice(self@),
    {
        match self {
            WakeAction::Announce => Some(VoiceState::Waking),
            WakeAction::Listen { .. } => Some(VoiceState::Listening),
            WakeAction::Receive => Some(VoiceState::Processing),
            WakeAction::Finish { .. } => Some(VoiceState::Idle),
            _ => None,
        }
    }
}

/// The recognition URL of the loop's settings.
pub open spec fn loop_asr_url(l: WakeLoop) -> Seq<char> {
    url_with_key(
        l.vosk_url@,
        if l.vosk_api_key@.len() == 0 {
            None
        } else {
            Some(l.vosk_api_key@)
        },
    )
}

/// Whether a finished verification round recognised the wake word.
pub open spec fn heard_wake_word(recognized: Option<String>, wake_word: Seq<char>) -> bool {
    match recognized {
        Some(t) => fuzzy_match_spec(unicode_lowercase(t@), unicode_lowercase(wake_word)),
        None => false,
    }
}

/// Phase and wake-listening flag after `e`. A stopped loop stays as it
/// is; a stop request returns it to idle.
pub open spec fn next_phase(l: WakeLoop, e: WakeEvent) -> (WakeLoopState, bool) {
    if l.stopped {
        (l.state, l.wake_listening)
    } else if e is StopRequested {
        (WakeLoopState::Idle, false)
    } else {
        running_phase(l, e)
    }
}

/// Whether the loop is stopped after `e`.
pub open spec fn next_stopped(l: WakeLoop, e: WakeEvent) -> bool {
    l.stopped || e is StopRequested
}

/// Phase and wake-listening flag after `e` while the service runs.
pub open spec fn running_phase(l: WakeLoop, e: WakeEvent) -> (WakeLoopState, bool) {
    match (l.state, e) {
        (WakeLoopState::Idle, WakeEvent::AudioFrame { loud, ms_since_last_wake }) => {
            if loud && ms_since_last_wake >= WAKE_COOLDOWN_MS {
                (WakeLoopState::Verifying, l.wake_listening)
            } else {
                (WakeLoopState::Idle, l.wake_listening)
            }
        },
        (WakeLoopState::Verifying, WakeEvent::VerifyFinished { recognized }) => {
            if heard_wake_word(recognized, l.wake_word@) {
                (WakeLoopState::Waking, l.wake_listening)
            } else {
                (WakeLoopState::Idle, false)
            }
        },
        (WakeLoopState::Waking, WakeEvent::ResponsePlayed) => (WakeLoopState::Listening, true),
        (WakeLoopState::Listening, WakeEvent::ProcessingFinished) => (WakeLoopState::Idle, false),
        _ => (l.state, l.wake_listening),
    }
}

/// The action that follows `e`: once stopped, or asked to stop, the loop
/// exits.
pub open spec fn next_action(l: WakeLoop, e: WakeEvent) -> WakeActionView {
    if l.stopped || e is StopRequested {
        WakeActionView::Exit
    } else {
        running_action(l, e)
    }
}

/// The action that follows `e` while the service runs.
pub open spec fn running_action(l: WakeLoop, e: WakeEvent) -> WakeActionView {
    match (l.state, e) {
        (WakeLoopState::Idle, WakeEvent::NoAudio) => WakeActionView::Poll,
        (WakeLoopState::Idle, WakeEvent::AudioFrame { loud, ms_since_last_wake }) => {
            if loud && ms_since_last_wake >= WAKE_COOLDOWN_MS {
                WakeActionView::Verify { asr_url: loop_asr_url(l) }
            } else {
                WakeActionView::Ignore
            }
        },
        (WakeLoopState::Verifying, WakeEvent::VerifyFinished { recognized }) => {
            if heard_wake_word(recognized, l.wake_word@) {
                WakeActionView::Announce
            } else {
                WakeActionView::Dismiss
            }
        },
        (WakeLoopState::Waking, WakeEvent::ResponsePlayed) => WakeActionView::Listen {
            asr_url: loop_asr_url(l),
        },
        (WakeLoopState::Listening, WakeEvent::AsrConnected) => WakeActionView::Receive,
        (WakeLoopState::Listening, WakeEvent::ProcessingFinished) => WakeActionView::Finish {
            input_complete: l.wake_listening,
        },
        _ => WakeActionView::Ignore,
    }
}

/// The settings of two loops agree.
pub open spec fn same_settings(a: WakeLoop, b: WakeLoop) -> bool {
    &&& a.wake_word@ == b.wake_word@
    &&& a.vosk_url@ == b.vosk_url@
    &&& a.vosk_api_key@ == b.vosk_api_key@
}

/// The loop as it stands after `e`.
pub open spec fn after_event(l: WakeLoop, e: WakeEvent) -> WakeLoop {
    WakeLoop {
        state: next_phase(l, e).0,
        wake_listening: next_phase(l, e).1,
        stopped: next_stopped(l, e),
        wake_word: l.wake_word,
        vosk_url: l.vosk_url,
        vosk_api_key: l.vosk_api_key,
    }
}

/// A listening session follows a wake-up exactly while the loop listens.
pub open spec fn wake_loop_inv(l: WakeLoop) -> bool {
    l.wake_listening <==> l.state == WakeLoopState::Listening
}

impl WakeLoop {
    /// A running loop waiting for speech, with the given settings.
    pub fn new(wake_word: String, vosk_url: String, vosk_api_key: String) -> (l: Self)
        ensures
            l.state == WakeLoopState::Idle,
            !l.wake_listening,
            !l.stopped,
            l.wake_word@ == wake_word@,
            l.vosk_url@ == vosk_url@,
            l.vosk_api_key@ == vosk_api_key@,
            wake_loop_inv(l),
    {
        WakeLoop {
            state: WakeLoopState::Idle,
            wake_listening: false,
            stopped: false,
            wake_word,
            vosk_url,
            vosk_api_key,
        }
    }

    fn asr_url(&self) -> (u: String)
        ensures
            u@ == loop_asr_url(*self),
    {
        asr_url_unless_empty(self.vosk_url.as_str(), self.vosk_api_key.as_str())
    }

    /// Takes the loop one step on event `e` and says what to do next.
    pub fn step(&mut self, e: &WakeEvent) -> (a: WakeAction)
        ensures
            (final(self).state, final(self).wake_listening) == next_phase(*old(self), *e),
            final(self).stopped == next_stopped(*old(self), *e),
            same_settings(*final(self), *old(self)),
            a@ == next_action(*old(self), *e),
    {
        if self.stopped {
            return WakeAction::Exit;
        }
        if let WakeEvent::StopRequested = e {
            self.stopped = true;
            self.wake_listening = false;
            self.state = WakeLoopState::Idle;
            return WakeAction::Exit;
        }
        match (self.state, e) {
            (WakeLoopState::Idle, WakeEvent::NoAudio) => WakeAction::Poll,
            (WakeLoopState::Idle, WakeEvent::AudioFrame { loud, ms_since_last_wake }) => {
                if *loud && *ms_since_last_wake >= WAKE_COOLDOWN_MS {
                    self.state = WakeLoopState::Verifying;
                    WakeAction::Verify { asr_url: self.asr_url() }
                } else {
                    WakeAction::Ignore
                }
            },
            (WakeLoopState::Verifying, WakeEvent::VerifyFinished { recognized }) => {
                let heard = match recognized {
                    Some(t) => fuzzy_match_keyword(t.as_str(), self.wake_word.as_str()),
                    None => false,
                };
                if heard {
                    self.state = WakeLoopState::Waking;
                    WakeAction::Announce
                } else {
                    self.wake_listening = false;
                    self.state = WakeLoopState::Idle;
                    WakeAction::Dismiss
                }
            },
            (WakeLoopState::Waking, WakeEvent::ResponsePlayed) => {
                self.wake_listening = true;
                self.state = WakeLoopState::Listening;
                WakeAction::Listen { asr_url: self.asr_url() }
            },
            (WakeLoopState::Listening, WakeEvent::AsrConnected) => WakeAction::Receive,
            (WakeLoopState::Listening, WakeEvent::ProcessingFinished) => {
                let input_complete = self.wake_listening;
                self.wake_listening = false;
                self.state = WakeLoopState::Idle;
                WakeAction::Finish { input_complete }
            },
            _ => WakeAction::Ignore,
        }
    }
}

// ---------------------------------------------------------------------
// Decisions on recognition messages
// ---------------------------------------------------------------------

/// What the recognition connection delivered while the application waited.
pub enum AsrIncoming {
    /// A text message, as read from its JSON.
    Message(AsrMessage),
    /// The service closed the connection.
    Closed,
    /// The connection failed.
    Failed,
    /// A message of another kind (binary, ping, pong).
    Other,
    /// Nothing arrived within the wait, or the stream ended.
    Silent,
}

impl AsrIncoming {
    /// What a text message of the recognition service delivers: the
    /// message it holds, or `Other` when it is no JSON.
    pub fn from_text(text: &str) -> (r: AsrIncoming)
        ensures
            match asr_json_fields(text@) {
                Some(f) => r matches AsrIncoming::Message(m) && message_fields(m) == f,
                None => r is Other,
            },
    {
        match asr_message_from_json(text) {
            Some(m) => AsrIncoming::Message(m),
            None => AsrIncoming::Other,
        }
    }
}

/// Why a listening session ended.
#[derive(Debug, Clone, Copy, PartialEq, Eq, Structural)]
pub enum EndReason {
    SendError,
    ChannelClosed,
    EndWord,
    Closed,
    Error,
    SilenceTimeout,
    Stopped,
}

/// What one round of a listening session yields: a result for the
/// interface, and the reason to stop, if any.
pub struct ProcessingOutcome {
    pub emit: Option<VoiceResult>,
    pub end: Option<EndReason>,
}

/// Whether the silence since the last audio reached the timeout.
pub fn silence_elapsed(ms_since_audio: u64, timeout_ms: u64) -> (b: bool)
    ensures
        b == (ms_since_audio >= timeout_ms),
{
    ms_since_audio >= timeout_ms
}

/// The reason a listening session stops after `incoming`.
pub open spec fn processing_end_spec(
    incoming: AsrIncoming,
    end_words: Seq<String>,
    ms_since_audio: u64,
    timeout_ms: u64,
) -> Option<EndReason> {
    let from_message = match incoming {
        AsrIncoming::Message(m) => match asr_result_spec(m) {
            Some((t, true)) => if has_end_word(t, end_words) {
                Some(EndReason::EndWord)
            } else {
                None
            },
            _ => None,
        },
        AsrIncoming::Closed => Some(EndReason::Closed),
        AsrIncoming::Failed => Some(EndReason::Error),
        _ => None,
    };
    match from_message {
        Some(r) => Some(r),
        None => if ms_since_audio >= timeout_ms {
            Some(EndReason::SilenceTimeout)
        } else {
            None
        },
    }
}

/// One round of a listening session: once the service is stopped, the
/// session ends and reports nothing more; otherwise the result to show for
/// `incoming`, and whether to stop because of an end word, the connection
/// or silence.
pub fn processing_step(
    service_running: bool,
    incoming: &AsrIncoming,
    end_words: &[String],
    ms_since_audio: u64,
    timeout_ms: u64,
) -> (o: ProcessingOutcome)
    ensures
        !service_running ==> o.emit is None && o.end == Some(EndReason::Stopped),
        service_running ==> match incoming {
            AsrIncoming::Message(m) => match asr_result_spec(*m) {
                Some((t, f)) => o.emit is Some && o.emit->0.text@ == t && o.emit->0.is_final == f,
                None => o.emit is None,
            },
            _ => o.emit is None,
        },
        service_running ==> o.end == processing_end_spec(
            *incoming,
            end_words@,
            ms_since_audio,
            timeout_ms,
        ),
{
    if !service_running {
        return ProcessingOutcome { emit: None, end: Some(EndReason::Stopped) };
    }
    let mut emit: Option<VoiceResult> = None;
    let mut end: Option<EndReason> = None;
    match incoming {
        AsrIncoming::Message(m) => {
            if let Some(r) = asr_result_of(m) {
                if r.is_final && contains_end_word(r.text.as_str(), end_words) {
                    end = Some(EndReason::EndWord);
                }
                emit = Some(VoiceResult { text: r.text, is_final: r.is_final });
            }
        },
        AsrIncoming::Closed => {
            end = Some(EndReason::Closed);
        },
        AsrIncoming::Failed => {
            end = Some(EndReason::Error);
        },
        _ => {},
    }
    if end.is_none() && silence_elapsed(ms_since_audio, timeout_ms) {
        end = Some(EndReason::SilenceTimeout);
    }
    ProcessingOutcome { emit, end }
}

/// One message of a verification round: updates the recognised text and
/// returns whether the round is over.
pub fn verify_step(recognized: &mut String, incoming: &AsrIncoming) -> (done: bool)
    ensures
        match incoming {
            AsrIncoming::Message(m) => (final(recognized)@, done) == verify_update_spec(
                old(recognized)@,
                *m,
            ),
            AsrIncoming::Other => final(recognized)@ == old(recognized)@ && !done,
            _ => final(recognized)@ == old(recognized)@ && done,
        },
{
    match incoming {
        AsrIncoming::Message(m) => verify_update(recognized, m),
        AsrIncoming::Other => false,
        _ => true,
    }
}

// ---------------------------------------------------------------------
// Laws
// ---------------------------------------------------------------------

/// Every step keeps the wake-listening flag set exactly while listening.
pub proof fn law_wake_loop_invariant(l: WakeLoop, e: WakeEvent)
    requires
        wake_loop_inv(l),
    ensures
        wake_loop_inv(after_event(l, e)),
{
}

/// Under the invariant, a listening session of a running loop always ends
/// by telling the interface that the spoken input is complete.
pub proof fn law_listening_ends_with_complete_input(l: WakeLoop)
    requires
        wake_loop_inv(l),
        !l.stopped,
        l.state == WakeLoopState::Listening,
    ensures
        next_action(l, WakeEvent::ProcessingFinished) == (WakeActionView::Finish {
            input_complete: true,
        }),
        next_phase(l, WakeEvent::ProcessingFinished).0 == WakeLoopState::Idle,
{
}

/// The loop wakes up only from verification, and only when the
/// recognised text matched the wake word.
pub proof fn law_wake_requires_wake_word(l: WakeLoop, e: WakeEvent)
    requires
        l.state != WakeLoopState::Waking,
        next_phase(l, e).0 == WakeLoopState::Waking,
    ensures
        l.state == WakeLoopState::Verifying,
        e matches WakeEvent::VerifyFinished { recognized } && heard_wake_word(
            recognized,
            l.wake_word@,
        ),
{
}

/// Loud audio within the cool-down after a wake-up starts no verification,
/// and quiet audio never does.
pub proof fn law_cooldown(l: WakeLoop, loud: bool, ms: u64)
    requires
        !l.stopped,
        l.state == WakeLoopState::Idle,
        !loud || ms < WAKE_COOLDOWN_MS,
    ensures
        next_phase(l, WakeEvent::AudioFrame { loud, ms_since_last_wake: ms }).0
            == WakeLoopState::Idle,
        next_action(l, WakeEvent::AudioFrame { loud, ms_since_last_wake: ms })
            == WakeActionView::Ignore,
{
}

/// The phases follow the cycle idle, verifying, waking, listening, idle;
/// a step either stays put or moves along it, drops verification back to
/// idle, or returns to idle on a stop request.
pub proof fn law_phase_cycle(l: WakeLoop, e: WakeEvent)
    ensures
        ({
            let n = next_phase(l, e).0;
            ||| n == l.state
            ||| (e is StopRequested && n == WakeLoopState::Idle)
            ||| (l.state == WakeLoopState::Idle && n == WakeLoopState::Verifying)
            ||| (l.state == WakeLoopState::Verifying && (n == WakeLoopState::Waking || n
                == WakeLoopState::Idle))
            ||| (l.state == WakeLoopState::Waking && n == WakeLoopState::Listening)
            ||| (l.state == WakeLoopState::Listening && n == WakeLoopState::Idle)
        }),
{
}

/// Neither an error nor a reset of the count leaves fallback mode; an
/// error adds one to the count.
pub proof fn law_fallback_is_sticky(s: VoiceWakeState)
    requires
        s.error_count < u32::MAX,
    ensures
        after_error(s).error_count == s.error_count + 1,
        s.is_fallback_mode ==> after_error(s).is_fallback_mode,
        after_error(s).fallback_config == s.fallback_config,
{
}

/// A final result holding an end word ends the listening session.
pub proof fn law_end_word_ends_session(m: AsrMessage, end_words: Seq<String>, ms: u64, timeout: u64)
    requires
        asr_result_spec(m) matches Some((t, true)) && has_end_word(t, end_words),
    ensures
        processing_end_spec(AsrIncoming::Message(m), end_words, ms, timeout) == Some(
            EndReason::EndWord,
        ),
{
}

/// A partial result never ends the session by itself; only the silence
/// timeout can then end it.
pub proof fn law_partial_result_continues(m: AsrMessage, end_words: Seq<String>, ms: u64, timeout: u64)
    requires
        asr_result_spec(m) matches Some((t, false)),
    ensures
        processing_end_spec(AsrIncoming::Message(m), end_words, ms, timeout) == if ms >= timeout {
            Some(EndReason::SilenceTimeout)
        } else {
            None
        },
{
}

/// Once the silence reaches the timeout, every round ends the session.
pub proof fn law_silence_ends_session(incoming: AsrIncoming, end_words: Seq<String>, ms: u64, timeout: u64)
    requires
        ms >= timeout,
    ensures
        processing_end_spec(incoming, end_words, ms, timeout) is Some,
{
}

/// From a fresh count, `k` errors give a count of `k`, and fallback mode
/// is on exactly when it was already on or `k` reached the retry limit.
pub proof fn law_errors_accumulate(s: VoiceWakeState, k: nat)
    requires
        s.error_count == 0,
        k < u32::MAX,
    ensures
        after_errors(s, k).error_count == k,
        after_errors(s, k).is_fallback_mode == (s.is_fallback_mode || (k > 0 && k
            >= s.fallback_config.max_retries)),
        after_errors(s, k).fallback_config == s.fallback_config,
    decreases k,
{
    if k > 0 {
        law_errors_accumulate(s, (k - 1) as nat);
    }
}

/// A stop request ends the loop: the loop returns to idle, leaves any
/// listening session, and the application is told to exit.
pub proof fn law_stop_request_exits(l: WakeLoop)
    ensures
        next_action(l, WakeEvent::StopRequested) == WakeActionView::Exit,
        after_event(l, WakeEvent::StopRequested).stopped,
        !l.stopped ==> after_event(l, WakeEvent::StopRequested).state == WakeLoopState::Idle,
        !after_event(l, WakeEvent::StopRequested).wake_listening || l.stopped,
        action_notice(next_action(l, WakeEvent::StopRequested)) is None,
{
}

/// Once stopped, the loop stays stopped and unchanged whatever happens,
/// every step tells the application to exit, and no state is announced.
pub proof fn law_stopped_loop_stays_stopped(l: WakeLoop, e: WakeEvent)
    requires
        l.stopped,
    ensures
        next_action(l, e) == WakeActionView::Exit,
        action_notice(next_action(l, e)) is None,
        after_event(l, e).stopped,
        after_event(l, e).state == l.state,
        after_event(l, e).wake_listening == l.wake_listening,
{
}

/// A wake-up session of a running loop announces the states waking,
/// listening, processing and idle, in that order, and ends idle.
pub proof fn law_wake_session_announces_states(l: WakeLoop, recognized: Option<String>)
    requires
        wake_loop_inv(l),
        !l.stopped,
        l.state == WakeLoopState::Verifying,
        heard_wake_word(recognized, l.wake_word@),
    ensures
        ({
            let e0 = WakeEvent::VerifyFinished { recognized };
            let l1 = after_event(l, e0);
            let l2 = after_event(l1, WakeEvent::ResponsePlayed);
            let l3 = after_event(l2, WakeEvent::AsrConnected);
            let l4 = after_event(l3, WakeEvent::ProcessingFinished);
            &&& action_notice(next_action(l, e0)) == Some(VoiceState::Waking)
            &&& action_notice(next_action(l1, WakeEvent::ResponsePlayed)) == Some(
                VoiceState::Listening,
            )
            &&& action_notice(next_action(l2, WakeEvent::AsrConnected)) == Some(
                VoiceState::Processing,
            )
            &&& action_notice(next_action(l3, WakeEvent::ProcessingFinished)) == Some(
                VoiceState::Idle,
            )
            &&& next_action(l3, WakeEvent::ProcessingFinished) == (WakeActionView::Finish {
                input_complete: true,
            })
            &&& l4.state == WakeLoopState::Idle
            &&& wake_loop_inv(l4)
        }),
{
}

/// After a verification round of a running loop, the loop wakes exactly
/// when the recognised text, as the input, matches the wake word, as the
/// keyword; otherwise it returns to idle.
pub proof fn law_wake_decision(l: WakeLoop, t: String)
    requires
        !l.stopped,
        l.state == WakeLoopState::Verifying,
    ensures
        next_phase(l, WakeEvent::VerifyFinished { recognized: Some(t) }).0 == WakeLoopState::Waking
            <==> fuzzy_match_spec(unicode_lowercase(t@), unicode_lowercase(l.wake_word@)),
        next_phase(l, WakeEvent::VerifyFinished { recognized: Some(t) }).0 == WakeLoopState::Waking
            || next_phase(l, WakeEvent::VerifyFinished { recognized: Some(t) }).0
            == WakeLoopState::Idle,
        next_action(l, WakeEvent::VerifyFinished { recognized: Some(t) })
            == if fuzzy_match_spec(unicode_lowercase(t@), unicode_lowercase(l.wake_word@)) {
            WakeActionView::Announce
        } else {
            WakeActionView::Dismiss
        },
{
}

/// Recognised text that is blank once lower-cased and trimmed never wakes
/// the loop, and neither does a failed verification round.
pub proof fn law_blank_recognition_never_wakes(l: WakeLoop, recognized: Option<String>)
    requires
        l.state == WakeLoopState::Verifying,
        match recognized {
            Some(t) => trim(unicode_lowercase(t@)).len() == 0,
            None => true,
        },
    ensures
        next_phase(l, WakeEvent::VerifyFinished { recognized }).0 != WakeLoopState::Waking,
        next_action(l, WakeEvent::VerifyFinished { recognized }) != WakeActionView::Announce,
{
}

/// A recognised text that holds a pinyin spelling of the wake word wakes
/// a running loop.
pub proof fn law_pinyin_spelling_wakes(l: WakeLoop, t: String, j: int)
    requires
        !l.stopped,
        l.state == WakeLoopState::Verifying,
        trim(unicode_lowercase(t@)).len() > 0,
        0 <= j < pinyin_variants().len(),
        variant_hit_at(trim(unicode_lowercase(t@)), trim(unicode_lowercase(l.wake_word@)), j),
    ensures
        next_phase(l, WakeEvent::VerifyFinished { recognized: Some(t) }).0 == WakeLoopState::Waking,
{
}

/// A final result of a listening session, with the connection open and the
/// silence below the timeout, ends the session exactly when it holds one of
/// the end words; otherwise the session goes on.
pub proof fn law_final_result_ends_only_on_end_word(
    m: AsrMessage,
    end_words: Seq<String>,
    ms: u64,
    timeout: u64,
)
    requires
        asr_result_spec(m) matches Some((t, true)),
        ms < timeout,
    ensures
        !has_end_word((asr_result_spec(m)->0).0, end_words) ==> processing_end_spec(
            AsrIncoming::Message(m),
            end_words,
            ms,
            timeout,
        ) is None,
        has_end_word((asr_result_spec(m)->0).0, end_words) ==> processing_end_spec(
            AsrIncoming::Message(m),
            end_words,
            ms,
            timeout,
        ) == Some(EndReason::EndWord),
{
}

/// A text holding one of the end words has an end word.
pub proof fn law_end_word_found(t: Seq<char>, end_words: Seq<String>, i: int, at: int)
    requires
        0 <= i < end_words.len(),
        occurs_at(t, end_words[i]@, at),
    ensures
        has_end_word(t, end_words),
{
}


/// A closed or failed connection ends a listening session at once, with
/// that reason; anything else that is no message ends it only once the
/// silence reaches the timeout.
pub proof fn law_connection_ends_session(end_words: Seq<String>, ms: u64, timeout: u64)
    ensures
        processing_end_spec(AsrIncoming::Closed, end_words, ms, timeout) == Some(EndReason::Closed),
        processing_end_spec(AsrIncoming::Failed, end_words, ms, timeout) == Some(EndReason::Error),
        processing_end_spec(AsrIncoming::Other, end_words, ms, timeout) is Some <==> ms >= timeout,
        processing_end_spec(AsrIncoming::Silent, end_words, ms, timeout) is Some <==> ms >= timeout,
{
}

/// Longer silence never keeps a listening session going that shorter
/// silence ended.
pub proof fn law_listening_silence_monotone(
    incoming: AsrIncoming,
    end_words: Seq<String>,
    shorter: u64,
    longer: u64,
    timeout: u64,
)
    requires
        shorter <= longer,
        processing_end_spec(incoming, end_words, shorter, timeout) is Some,
    ensures
        processing_end_spec(incoming, end_words, longer, timeout) is Some,
{
}

} // verus!
