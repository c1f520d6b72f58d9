use screen_recorder::audio::{
    audio_device_listing_readable, audio_device_query, audio_tool_answer, audio_tool_check,
    find_audio_device, is_white_space, split_words, Stream, ToolCheck,
};
use screen_recorder::recording::Platform;

fn s(x: &str) -> String {
    x.to_string()
}

fn strings(v: &[&str]) -> Vec<String> {
    v.iter().map(|x| x.to_string()).collect()
}

#[test]
fn tool_checks() {
    match audio_tool_check(Platform::Windows) {
        ToolCheck::Probe(c, m) => {
            assert_eq!(c, strings(&["where", "VirtualCable"]));
            assert_eq!(m, "VB-Audio Virtual Cable not found");
        }
        _ => panic!(),
    }
    match audio_tool_check(Platform::MacOs) {
        ToolCheck::Probe(c, m) => {
            assert_eq!(c, strings(&["brew", "list", "blackhole-16ch"]));
            assert_eq!(m, "BlackHole not found");
        }
        _ => panic!(),
    }
    assert!(matches!(audio_tool_check(Platform::Linux), ToolCheck::Present));
    assert!(matches!(audio_tool_check(Platform::Other), ToolCheck::Unsupported));
}

#[test]
fn tool_answers() {
    let w = audio_tool_check(Platform::Windows);
    assert_eq!(audio_tool_answer(&w, &Ok(true)), Ok(true));
    assert_eq!(audio_tool_answer(&w, &Ok(false)), Err(s("VB-Audio Virtual Cable not found")));
    assert_eq!(audio_tool_answer(&w, &Err(s("not found"))), Err(s("Failed to execute command: not found")));
    assert_eq!(audio_tool_answer(&ToolCheck::Present, &Ok(false)), Ok(true));
    assert_eq!(audio_tool_answer(&ToolCheck::Unsupported, &Ok(true)), Err(s("Unsupported platform")));
}

#[test]
fn device_queries() {
    let q = audio_device_query(Platform::Windows).unwrap();
    assert_eq!(q.command, strings(&["ffmpeg", "-list_devices", "true", "-f", "dshow", "-i", "dummy"]));
    assert_eq!(q.stream, Stream::Stderr);
    let q = audio_device_query(Platform::MacOs).unwrap();
    assert_eq!(q.command, strings(&["ffmpeg", "-f", "avfoundation", "-list_devices", "true", "-i", "dummy"]));
    assert_eq!(q.stream, Stream::Stderr);
    let q = audio_device_query(Platform::Linux).unwrap();
    assert_eq!(q.command, strings(&["pactl", "list", "sources"]));
    assert_eq!(q.stream, Stream::Stdout);
    assert!(audio_device_query(Platform::Other).is_none());
}

#[test]
fn windows_device_between_quotes() {
    let text = "[dshow @ 01] \"HD Camera\" (video)\n[dshow @ 01] \"Microphone (Realtek Audio)\" (audio)\n";
    assert!(audio_device_listing_readable(Platform::Windows, text));
    assert_eq!(find_audio_device(Platform::Windows, text), Ok(s("Microphone (Realtek Audio)")));
}

#[test]
fn windows_device_without_quotes() {
    let text = "xMicrophone audio";
    assert!(audio_device_listing_readable(Platform::Windows, text));
    assert_eq!(find_audio_device(Platform::Windows, text), Ok(s("Microphone audio")));
}

#[test]
fn windows_single_quote_line_not_readable() {
    let text = "\"Microphone audio";
    assert!(!audio_device_listing_readable(Platform::Windows, text));
    assert!(audio_device_listing_readable(Platform::Linux, text));
}

#[test]
fn windows_no_microphone() {
    assert_eq!(find_audio_device(Platform::Windows, "\"Line In\" (audio)"), Err(s("No microphone found")));
}

#[test]
fn macos_device_index() {
    let text = "AVFoundation video devices:\n[AVFoundation indev @ 0x1] [0] FaceTime\nAVFoundation audio devices:\n[AVFoundation indev @ 0x1] [0] MacBook Microphone\n";
    assert_eq!(find_audio_device(Platform::MacOs, text), Ok(s("0")));
    let text = "[AVFoundation indev @ 0x1] AVFoundation audio devices:\n[AVFoundation indev @ 0x1] [0] Mic\n";
    assert_eq!(find_audio_device(Platform::MacOs, text), Ok(s("AVFoundation indev @ 0x1")));
    assert_eq!(find_audio_device(Platform::MacOs, "audio [3] mic"), Ok(s("3")));
    assert_eq!(find_audio_device(Platform::MacOs, "audio only"), Ok(s("0")));
    assert_eq!(find_audio_device(Platform::MacOs, "audio [abc"), Ok(s("abc")));
    assert_eq!(find_audio_device(Platform::MacOs, "video"), Err(s("No audio input device found")));
}

#[test]
fn linux_device_second_word() {
    let text = "Source #1\n\tName: alsa_input.usb-microphone.analog-stereo\n\tDescription: x\n";
    assert_eq!(find_audio_device(Platform::Linux, text), Ok(s("alsa_input.usb-microphone.analog-stereo")));
    assert_eq!(find_audio_device(Platform::Linux, "Name:microphone"), Ok(s("default")));
    assert_eq!(find_audio_device(Platform::Linux, "Name: mic"), Err(s("No microphone found")));
}

#[test]
fn unknown_platform_device() {
    assert_eq!(find_audio_device(Platform::Other, "anything"), Err(s("Unsupported platform")));
}

#[test]
fn words_split_on_unicode_white_space() {
    assert_eq!(split_words("  a\tbb\u{3000}c \n"), strings(&["a", "bb", "c"]));
    assert_eq!(split_words(""), Vec::<String>::new());
    assert_eq!(split_words("one"), strings(&["one"]));
}

#[test]
fn white_space_is_unicode_white_space() {
    for c in ['\t', '\n', '\u{b}', '\u{c}', '\r', ' ', '\u{85}', '\u{a0}', '\u{1680}', '\u{2000}', '\u{200a}', '\u{2028}', '\u{2029}', '\u{202f}', '\u{205f}', '\u{3000}'] {
        assert!(is_white_space(c));
        assert_eq!(is_white_space(c), c.is_whitespace());
    }
    for c in ['a', '\u{8}', '\u{e}', '\u{200b}', '\u{feff}', '_'] {
        assert!(!is_white_space(c));
        assert_eq!(is_white_space(c), c.is_whitespace());
    }
    for code in 0u32..0x3100 {
        if let Some(c) = char::from_u32(code) {
            assert_eq!(is_white_space(c), c.is_whitespace(), "U+{:04X}", code);
        }
    }
}
