//! The playback dispatcher: choose, from the sandbox probe, how a finished
//! recording is opened for the user.

use vstd::prelude::*;

verus! {

/// How the finished recording is to be opened: through the sandbox's
/// designated helper, or through the platform's default opener.
pub enum PlayAction {
    SandboxOpen { helper: String, subcommand: String, path: String },
    DefaultOpen { path: String },
}

/// Choose the playback path for a finished recording. In a sandboxed install
/// the file goes to the sandbox helper's open-for-user subcommand; otherwise
/// it goes to the platform's default opener. Exactly one path is taken.
pub fn play_record(file_name: &str, sandboxed: bool) -> (action: PlayAction)
    ensures
        sandboxed ==> (action matches PlayAction::SandboxOpen { helper, subcommand, path }
            && helper@ == "snapctl"@ && subcommand@ == "user-open"@ && path@ == file_name@),
        !sandboxed ==> (action matches PlayAction::DefaultOpen { path } && path@ == file_name@),
{
    if sandboxed {
        PlayAction::SandboxOpen {
            helper: "snapctl".to_owned(),
            subcommand: "user-open".to_owned(),
            path: file_name.to_owned(),
        }
    } else {
        PlayAction::DefaultOpen { path: file_name.to_owned() }
    }
}

} // verus!
