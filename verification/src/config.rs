//! The application configuration and its defaults.
use vstd::prelude::*;

verus! {

/// Where the OpenClaw gateway runs and whether the assistant starts it.
#[derive(Debug, Clone)]
pub struct OpenClawConfig {
    pub url: String,
    pub use_local: bool,
    pub auto_start: bool,
}

/// Where the skills market runs.
#[derive(Debug, Clone)]
pub struct MarketConfig {
    pub url: String,
    pub enabled: bool,
}

/// The Vosk speech-recognition service.
#[derive(Debug, Clone)]
pub struct VoskConfig {
    pub url: String,
    pub api_key: String,
    pub enabled: bool,
    pub silence_timeout: u32,
}

/// Voice wake-up: the wake word, the spoken responses, when listening
/// stops, and the recognition service it uses.
#[derive(Debug, Clone)]
pub struct VoiceWakeConfig {
    pub enabled: bool,
    pub wake_word: String,
    pub wake_sounds: Vec<String>,
    pub silence_timeout: u32,
    pub end_words: Vec<String>,
    pub vosk_url: String,
    pub vosk_api_key: String,
    pub auto_mic_after_wake: bool,
    pub auto_send_after_wake: bool,
}

/// Look and language of the interface.
#[derive(Debug, Clone)]
pub struct AppPreferences {
    pub theme: String,
    pub language: String,
}

/// The whole configuration.
#[derive(Debug, Clone)]
pub struct AppConfig {
    pub openclaw: OpenClawConfig,
    pub market: MarketConfig,
    pub preferences: AppPreferences,
    pub vosk: VoskConfig,
    pub voice_wake: VoiceWakeConfig,
}

/// The default address of the recognition service.
pub open spec fn default_vosk_url_spec() -> Seq<char> {
    "ws://192.168.150.26:2700"@
}

/// The default address of the recognition service.
pub fn default_vosk_url() -> (u: String)
    ensures
        u@ == default_vosk_url_spec(),
{
    String::from_str("ws://192.168.150.26:2700")
}

pub open spec fn views(v: Seq<String>) -> Seq<Seq<char>> {
    v.map_values(|s: String| s@)
}

impl Default for VoiceWakeConfig {
    fn default() -> (c: Self)
        ensures
            !c.enabled,
            c.wake_word@ == "小 Shine"@,
            views(c.wake_sounds@) == seq!["在呢"@, "在的"@, "我在"@, "请说"@],
            c.silence_timeout == 3000,
            views(c.end_words@) == seq!["结束"@, "停止"@],
            c.vosk_url@ == default_vosk_url_spec(),
            c.vosk_api_key@ == Seq::<char>::empty(),
            c.auto_mic_after_wake,
            !c.auto_send_after_wake,
    {
        let wake_sounds = vec![
            String::from_str("在呢"),
            String::from_str("在的"),
            String::from_str("我在"),
            String::from_str("请说"),
        ];
        let end_words = vec![String::from_str("结束"), String::from_str("停止")];
        assert(views(wake_sounds@) =~= seq!["在呢"@, "在的"@, "我在"@, "请说"@]);
        assert(views(end_words@) =~= seq!["结束"@, "停止"@]);
        VoiceWakeConfig {
            enabled: false,
            wake_word: String::from_str("小 Shine"),
            wake_sounds,
            silence_timeout: 3000,
            end_words,
            vosk_url: default_vosk_url(),
            vosk_api_key: String::new(),
            auto_mic_after_wake: true,
            auto_send_after_wake: false,
        }
    }
}

impl Default for VoskConfig {
    fn default() -> (c: Self)
        ensures
            c.url@ == default_vosk_url_spec(),
            c.api_key@ == Seq::<char>::empty(),
            !c.enabled,
            c.silence_timeout == 3000,
    {
        VoskConfig { url: default_vosk_url(), api_key: String::new(), enabled: false, silence_timeout: 3000 }
    }
}

impl Default for OpenClawConfig {
    fn default() -> (c: Self)
        ensures
            c.url@ == "http://localhost:18789"@,
            c.use_local,
            c.auto_start,
    {
        OpenClawConfig { url: String::from_str("http://localhost:18789"), use_local: true, auto_start: true }
    }
}

impl Default for MarketConfig {
    fn default() -> (c: Self)
        ensures
            c.url@ == "http://localhost:3001"@,
            c.enabled,
    {
        MarketConfig { url: String::from_str("http://localhost:3001"), enabled: true }
    }
}

impl Default for AppPreferences {
    fn default() -> (p: Self)
        ensures
            p.theme@ == "system"@,
            p.language@ == "zh-CN"@,
    {
        AppPreferences { theme: String::from_str("system"), language: String::from_str("zh-CN") }
    }
}

impl Default for AppConfig {
    fn default() -> (c: Self)
        ensures
            c.openclaw.url@ == "http://localhost:18789"@,
            c.openclaw.use_local,
            c.openclaw.auto_start,
            c.market.url@ == "http://localhost:3001"@,
            c.market.enabled,
            c.preferences.theme@ == "system"@,
            c.preferences.language@ == "zh-CN"@,
            c.vosk.url@ == default_vosk_url_spec(),
            c.vosk.api_key@ == Seq::<char>::empty(),
            !c.vosk.enabled,
            c.vosk.silence_timeout == 3000,
            !c.voice_wake.enabled,
            c.voice_wake.wake_word@ == "小 Shine"@,
            views(c.voice_wake.wake_sounds@) == seq!["在呢"@, "在的"@, "我在"@, "请说"@],
            c.voice_wake.silence_timeout == 3000,
            views(c.voice_wake.end_words@) == seq!["结束"@, "停止"@],
            c.voice_wake.vosk_url@ == default_vosk_url_spec(),
            c.voice_wake.vosk_api_key@ == Seq::<char>::empty(),
            c.voice_wake.auto_mic_after_wake,
            !c.voice_wake.auto_send_after_wake,
    {
        AppConfig {
            openclaw: OpenClawConfig::default(),
            market: MarketConfig::default(),
            preferences: AppPreferences::default(),
            vosk: VoskConfig::default(),
            voice_wake: VoiceWakeConfig::default(),
        }
    }
}

} // verus!
