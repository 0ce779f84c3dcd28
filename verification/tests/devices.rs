use scribe::devices::{choose_system_audio_device, contains_text, is_system_audio_device};

#[test]
fn loopback_names_are_recognised_in_any_case() {
    assert!(is_system_audio_device("Monitor of Built-in Audio Analog Stereo"));
    assert!(is_system_audio_device("alsa_output.pci.analog-stereo.monitor"));
    assert!(is_system_audio_device("BlackHole 2ch"));
    assert!(is_system_audio_device("Soundflower (2ch)"));
    assert!(is_system_audio_device("Loopback Audio"));
    assert!(!is_system_audio_device("MacBook Pro Microphone"));
    assert!(!is_system_audio_device(""));
}

#[test]
fn first_loopback_device_is_chosen() {
    let names = vec![
        Some("USB Mic".to_string()),
        None,
        Some("BlackHole 16ch".to_string()),
        Some("Monitor of Speakers".to_string()),
    ];
    assert_eq!(choose_system_audio_device(&names), Some(2));
    let none = vec![Some("USB Mic".to_string()), None];
    assert_eq!(choose_system_audio_device(&none), None);
    assert_eq!(choose_system_audio_device(&vec![]), None);
}

#[test]
fn substring_search() {
    assert!(contains_text("abcabd", "abd"));
    assert!(contains_text("abc", ""));
    assert!(!contains_text("ab", "abc"));
    assert!(!contains_text("aXbc", "abc"));
}

