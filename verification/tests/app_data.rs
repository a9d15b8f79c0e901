use shine_helper::config::{
    default_vosk_url, AppConfig, AppPreferences, MarketConfig, OpenClawConfig, VoiceWakeConfig,
    VoskConfig,
};
use shine_helper::skills::{safe_skill_id, skills_dir_choice, Skill};
use shine_helper::startup::{check_launch_files, check_openclaw_prerequisites, MissingPrerequisite};
use shine_helper::text_io::last_log_lines;

#[test]
fn configuration_defaults() {
    let c = AppConfig::default();
    assert_eq!(c.openclaw.url, "http://localhost:18789");
    assert!(c.openclaw.use_local && c.openclaw.auto_start);
    assert_eq!(c.market.url, "http://localhost:3001");
    assert!(c.market.enabled);
    assert_eq!(c.preferences.theme, "system");
    assert_eq!(c.preferences.language, "zh-CN");
    assert_eq!(c.vosk.url, "ws://192.168.150.26:2700");
    assert_eq!(c.vosk.silence_timeout, 3000);
    assert!(!c.vosk.enabled);
    let w = VoiceWakeConfig::default();
    assert!(!w.enabled);
    assert_eq!(w.wake_word, "小 Shine");
    assert_eq!(w.wake_sounds, vec!["在呢", "在的", "我在", "请说"]);
    assert_eq!(w.end_words, vec!["结束", "停止"]);
    assert_eq!(w.silence_timeout, 3000);
    assert_eq!(w.vosk_url, default_vosk_url());
    assert!(w.vosk_api_key.is_empty());
    assert!(w.auto_mic_after_wake);
    assert!(!w.auto_send_after_wake);
    assert!(c.voice_wake.auto_mic_after_wake);
    assert!(!c.voice_wake.auto_send_after_wake);
    assert_eq!(VoskConfig::default().api_key, "");
    assert_eq!(OpenClawConfig::default().url, "http://localhost:18789");
    assert!(MarketConfig::default().enabled);
    assert_eq!(AppPreferences::default().language, "zh-CN");
}

#[test]
fn skill_ids_become_directory_names() {
    assert_eq!(safe_skill_id("org/tool/v2"), "org__tool__v2");
    assert_eq!(safe_skill_id("plain"), "plain");
    assert_eq!(safe_skill_id("/"), "__");
}

#[test]
fn installed_skill_record() {
    let s = Skill::installed_from_market("a/b", "B", "desc", "1.2.0", "b.zip");
    assert_eq!(s.id, "a/b");
    assert_eq!(s.author, "Skills Market");
    assert!(s.installed && s.enabled);
    assert_eq!(s.installed_version.as_deref(), Some("1.2.0"));
    assert_eq!(s.file_name.as_deref(), Some("b.zip"));
    assert!(s.icon.is_none());
}

#[test]
fn prerequisites_in_order() {
    assert_eq!(check_openclaw_prerequisites(true, true, true, true), Ok(()));
    assert_eq!(check_openclaw_prerequisites(false, false, false, false), Err(MissingPrerequisite::NodeRuntime));
    assert_eq!(check_openclaw_prerequisites(true, false, false, true), Err(MissingPrerequisite::OpenClawApp));
    assert_eq!(check_openclaw_prerequisites(true, true, false, false), Err(MissingPrerequisite::OpenClawConfig));
    assert_eq!(check_openclaw_prerequisites(true, true, true, false), Err(MissingPrerequisite::OpenClawEntry));
    assert_eq!(check_launch_files(true, false, false), Err(MissingPrerequisite::OpenClawEntry));
    assert_eq!(check_launch_files(true, true, false), Err(MissingPrerequisite::OpenClawConfig));
    assert_eq!(check_launch_files(true, true, true), Ok(()));
}

#[test]
fn log_tail_newest_first() {
    assert_eq!(last_log_lines("a\nb\nc\n", 2), "c\nb");
    assert_eq!(last_log_lines("a\r\nb\nc", 20), "c\nb\na");
    assert_eq!(last_log_lines("", 20), "");
    assert_eq!(last_log_lines("x\n\ny", 0), "");
}

#[test]
fn skills_dir_prefers_existing_assistant_dir() {
    assert_eq!(skills_dir_choice(Some("/oc".to_string()), true, "/local".to_string()), "/oc");
    assert_eq!(skills_dir_choice(Some("/oc".to_string()), false, "/local".to_string()), "/local");
    assert_eq!(skills_dir_choice(None, true, "/local".to_string()), "/local");
}
