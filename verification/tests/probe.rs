use recorder_core::probe::{
    is_input_audio_record, is_output_audio_record, is_snap, is_valide, is_video_record,
    is_wayland, validator_command, CheckerOutcome, UtilError,
};

#[test]
fn snap_unset_is_not_sandboxed() {
    assert!(!is_snap(&None));
}

#[test]
fn snap_empty_is_not_sandboxed() {
    assert!(!is_snap(&Some(String::new())));
}

#[test]
fn snap_whitespace_only_is_sandboxed() {
    assert!(is_snap(&Some(" ".to_string())));
}

#[test]
fn snap_nonempty_is_sandboxed() {
    assert!(is_snap(&Some("/snap/recorder/42".to_string())));
    assert!(is_snap(&Some("1".to_string())));
}

#[test]
fn wayland_is_case_insensitive() {
    assert!(is_wayland(&Some("wayland".to_string())));
    assert!(is_wayland(&Some("Wayland".to_string())));
    assert!(is_wayland(&Some("WAYLAND".to_string())));
}

#[test]
fn non_wayland_values_are_rejected() {
    assert!(!is_wayland(&Some("x11".to_string())));
    assert!(!is_wayland(&Some("".to_string())));
    assert!(!is_wayland(&Some("waylandd".to_string())));
    assert!(!is_wayland(&Some("wayland ".to_string())));
    assert!(!is_wayland(&None));
}

#[test]
fn existence_checks_see_a_present_entry() {
    assert!(is_input_audio_record("/"));
    assert!(is_output_audio_record("/"));
    assert!(is_video_record("/"));
}

#[test]
fn existence_checks_see_a_missing_entry() {
    let missing = "/no/such/capture/file.mkv";
    assert!(!is_input_audio_record(missing));
    assert!(!is_output_audio_record(missing));
    assert!(!is_video_record(missing));
}

#[test]
fn validator_command_requests_full_decode_with_null_sink() {
    let cmd = validator_command("/tmp/out.mkv");
    assert_eq!(cmd.program, "ffmpeg");
    let expected = vec!["-v", "error", "-i", "/tmp/out.mkv", "-f", "null", "-"];
    assert_eq!(cmd.args, expected);
}

#[test]
fn checker_success_is_valid_media() {
    assert_eq!(is_valide(&CheckerOutcome::Finished { success: true }), Ok(true));
}

#[test]
fn checker_failure_is_invalid_media_not_an_error() {
    assert_eq!(is_valide(&CheckerOutcome::Finished { success: false }), Ok(false));
}

#[test]
fn checker_that_cannot_launch_is_an_error() {
    assert_eq!(
        is_valide(&CheckerOutcome::NotLaunched),
        Err(UtilError::LaunchFailure)
    );
}
