use audioscribe::errors::{ApiError, CaptureError};
use audioscribe::strutil::{dec_u32, json_escape, str_contains_ci, str_eq, str_starts_with, trim};

#[test]
fn string_equality_and_prefix() {
    assert!(str_eq("abc", "abc"));
    assert!(!str_eq("abc", "abd"));
    assert!(!str_eq("abc", "abcd"));
    assert!(str_eq("", ""));
    assert!(str_starts_with("data: [DONE]", "data: "));
    assert!(!str_starts_with("data:", "data: "));
    assert!(str_starts_with("x", ""));
}

#[test]
fn case_insensitive_search() {
    assert!(str_contains_ci("Stereo Mix (Realtek)", "stereo mix"));
    assert!(str_contains_ci("BLACKHOLE", "blackhole"));
    assert!(str_contains_ci("abc", ""));
    assert!(!str_contains_ci("abc", "abcd"));
    assert!(!str_contains_ci("microphone", "loopback"));
}

#[test]
fn trim_strips_surrounding_whitespace() {
    assert_eq!(trim("  hello \t\r\n"), "hello");
    assert_eq!(trim("hello"), "hello");
    assert_eq!(trim("   "), "");
    assert_eq!(trim(""), "");
    assert_eq!(trim(" a b "), "a b");
}

#[test]
fn decimal_rendering() {
    assert_eq!(dec_u32(0), "0");
    assert_eq!(dec_u32(7), "7");
    assert_eq!(dec_u32(42), "42");
    assert_eq!(dec_u32(401), "401");
    assert_eq!(dec_u32(4294967295), "4294967295");
}

#[test]
fn json_escaping() {
    assert_eq!(json_escape("plain"), "plain");
    assert_eq!(json_escape("a\"b"), "a\\\"b");
    assert_eq!(json_escape("a\\b"), "a\\\\b");
    assert_eq!(json_escape("a\nb\rc\td"), "a\\nb\\rc\\td");
    assert_eq!(json_escape("\u{1}\u{1f}"), "\\u0001\\u001f");
    assert_eq!(json_escape("héllo"), "héllo");
}

#[test]
fn capture_error_messages() {
    assert_eq!(CaptureError::AlreadyRecording.message(), "Already recording");
    assert_eq!(CaptureError::NotRecording.message(), "No active recording session");
    assert_eq!(CaptureError::NoDeviceAvailable.message(), "No audio device available");
    assert_eq!(CaptureError::UnsupportedSampleFormat.message(), "Unsupported sample format");
}

#[test]
fn api_error_messages() {
    assert_eq!(
        ApiError::CredentialMissing.message(),
        "OPENAI_API_KEY environment variable not found",
    );
    assert_eq!(
        ApiError::TransportError("timed out".to_string()).message(),
        "Request failed: timed out",
    );
    assert_eq!(
        ApiError::DecodeError("bad json".to_string()).message(),
        "Failed to decode response: bad json",
    );
}
