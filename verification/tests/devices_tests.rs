use audioscribe::devices::{
    format_device_list, loopback_name, loopback_output_name, select_capture_device, DeviceChoice,
};
use audioscribe::errors::CaptureError;

fn names(v: &[&str]) -> Vec<String> {
    v.iter().map(|s| s.to_string()).collect()
}

#[test]
fn loopback_names_match_case_insensitively() {
    assert!(loopback_name("Stereo Mix (Realtek High Definition Audio)"));
    assert!(loopback_name("What U Hear"));
    assert!(loopback_name("PulseAudio Loopback"));
    assert!(loopback_name("Monitor of Built-in Audio"));
    assert!(loopback_name("Soundflower (2ch)"));
    assert!(loopback_name("BLACKHOLE 16ch"));
    assert!(loopback_name("VB Virtual Audio Cable"));
    assert!(!loopback_name("Built-in Microphone"));
    assert!(!loopback_name(""));
}

#[test]
fn loopback_output_names_are_the_virtual_devices() {
    assert!(loopback_output_name("BlackHole 2ch"));
    assert!(loopback_output_name("Soundflower (64ch)"));
    assert!(!loopback_output_name("MacBook Pro Speakers"));
}

#[test]
fn first_matching_input_wins() {
    let inputs = names(&["Mic A", "Stereo Mix", "Loopback B"]);
    let r = select_capture_device(&inputs, &Vec::new(), false, true);
    assert_eq!(r.unwrap(), DeviceChoice::Input(1));
}

#[test]
fn outputs_are_scanned_only_when_requested() {
    let inputs = names(&["Mic A"]);
    let outputs = names(&["Speakers", "BlackHole 2ch"]);
    let with_scan = select_capture_device(&inputs, &outputs, true, true);
    assert_eq!(with_scan.unwrap(), DeviceChoice::Output(1));
    let without_scan = select_capture_device(&inputs, &outputs, false, true);
    assert_eq!(without_scan.unwrap(), DeviceChoice::DefaultInput);
}

#[test]
fn falls_back_to_default_input() {
    let inputs = names(&["Mic A", "Mic B"]);
    let r = select_capture_device(&inputs, &Vec::new(), true, true);
    assert_eq!(r.unwrap(), DeviceChoice::DefaultInput);
}

#[test]
fn no_device_at_all_is_an_error() {
    let r = select_capture_device(&Vec::new(), &Vec::new(), true, false);
    assert!(matches!(r, Err(CaptureError::NoDeviceAvailable)));
}

#[test]
fn device_list_has_headings_and_prefixes() {
    let inputs = names(&["Mic A", "Stereo Mix"]);
    let outputs = names(&["Speakers"]);
    let listing = format_device_list(&inputs, &outputs);
    assert_eq!(
        listing,
        vec![
            "=== INPUT DEVICES ===".to_string(),
            "Input: Mic A".to_string(),
            "Input: Stereo Mix".to_string(),
            "=== OUTPUT DEVICES ===".to_string(),
            "Output: Speakers".to_string(),
        ],
    );
}

#[test]
fn device_list_of_nothing_is_just_headings() {
    let listing = format_device_list(&Vec::new(), &Vec::new());
    assert_eq!(
        listing,
        vec!["=== INPUT DEVICES ===".to_string(), "=== OUTPUT DEVICES ===".to_string()],
    );
}
