use shine_helper::tts::{pcm16_le_bytes, TtsPlayer};
use std::path::PathBuf;

#[test]
fn test_tts_player_creation() {
    let player = TtsPlayer::new(vec!["在呢".to_string()]);
    assert_eq!(player.wake_sounds.len(), 1);
}

#[test]
fn test_create_wav_file() {
    let pcm_data = vec![0u8; 1024];
    let wav = TtsPlayer::create_wav_file(&pcm_data, 44100, 1, 16);

    assert_eq!(&wav[0..4], b"RIFF");
    assert_eq!(&wav[8..12], b"WAVE");
    assert_eq!(&wav[12..16], b"fmt ");
    assert_eq!(&wav[36..40], b"data");
}

#[test]
fn wav_header_fields_exact() {
    let wav = TtsPlayer::create_wav_file(&[1u8, 2, 3, 4], 16000, 1, 16);
    let expected: Vec<u8> = vec![
        b'R', b'I', b'F', b'F', 40, 0, 0, 0, b'W', b'A', b'V', b'E', b'f', b'm', b't', b' ', 16, 0,
        0, 0, 1, 0, 1, 0, 0x80, 0x3e, 0, 0, 0x00, 0x7d, 0, 0, 2, 0, 16, 0, b'd', b'a', b't', b'a',
        4, 0, 0, 0, 1, 2, 3, 4,
    ];
    assert_eq!(wav, expected);
}

#[test]
fn wav_layout_for_stereo_beep() {
    let pcm = vec![7u8; 10];
    let wav = TtsPlayer::create_wav_file(&pcm, 44100, 2, 16);
    assert_eq!(wav.len(), 54);
    assert_eq!(&wav[4..8], &46u32.to_le_bytes());
    assert_eq!(&wav[28..32], &(44100u32 * 4).to_le_bytes());
    assert_eq!(&wav[32..34], &4u16.to_le_bytes());
    assert_eq!(&wav[40..44], &10u32.to_le_bytes());
    assert_eq!(&wav[44..], &pcm[..]);
}

#[test]
fn pcm16_bytes_are_little_endian() {
    assert_eq!(pcm16_le_bytes(&[1, -1, 256, i16::MIN]), vec![1, 0, 255, 255, 0, 1, 0, 0x80]);
    assert!(pcm16_le_bytes(&[]).is_empty());
}

#[test]
fn wake_response_comes_from_the_list() {
    let sounds = vec!["我在".to_string(), "请说".to_string(), "在的".to_string()];
    let player = TtsPlayer::new(sounds.clone());
    for _ in 0..20 {
        let r = player.choose_wake_response();
        assert!(sounds.contains(&r));
    }
    let single = TtsPlayer::new(vec!["我在".to_string()]);
    assert_eq!(single.choose_wake_response(), "我在");
}

#[test]
fn wake_response_defaults_when_empty() {
    let player = TtsPlayer::new(vec![]);
    assert_eq!(player.choose_wake_response(), "在呢");
}

#[test]
fn resource_dir_is_kept() {
    let player = TtsPlayer::new(vec!["a".to_string()]).with_resource_dir(PathBuf::from("/tmp/tts"));
    assert_eq!(player.resource_dir, Some(PathBuf::from("/tmp/tts")));
    assert_eq!(player.wake_sounds, vec!["a".to_string()]);
    assert!(TtsPlayer::new(vec![]).resource_dir.is_none());
}

#[test]
fn audio_file_name_appends_mp3() {
    assert_eq!(TtsPlayer::wake_audio_file_name("在呢"), "在呢.mp3");
}

#[test]
fn player_clones_keep_phrases() {
    let player = TtsPlayer::new(vec!["我在".to_string()]);
    let copy = player.clone();
    assert_eq!(copy.wake_sounds, vec!["我在".to_string()]);
    assert_eq!(copy.choose_wake_response(), "我在");
}
