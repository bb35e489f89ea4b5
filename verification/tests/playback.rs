use recorder_core::playback::{play_record, PlayAction};
use recorder_core::probe::is_snap;

#[test]
fn sandboxed_playback_goes_through_the_helper() {
    // A sandbox variable set to "1" routes playback through the sandbox
    // helper's open-for-user subcommand; the default opener is never chosen.
    let sandboxed = is_snap(&Some("1".to_string()));
    assert!(sandboxed);
    let action = play_record("/tmp/out.mp4", sandboxed);
    match action {
        PlayAction::SandboxOpen { helper, subcommand, path } => {
            assert_eq!(helper, "snapctl");
            assert_eq!(vec![subcommand, path], vec!["user-open", "/tmp/out.mp4"]);
        }
        PlayAction::DefaultOpen { .. } => panic!("sandboxed playback must not use the default opener"),
    }
}

#[test]
fn direct_playback_uses_the_default_opener() {
    let action = play_record("/tmp/out.mp4", false);
    match action {
        PlayAction::DefaultOpen { path } => assert_eq!(path, "/tmp/out.mp4"),
        PlayAction::SandboxOpen { .. } => panic!("direct playback must not use the sandbox helper"),
    }
}
