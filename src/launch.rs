//! The decisions of the shim that is run in place of the real executable:
//! what to launch, under which namespace, and which exit code to pass on.

use vstd::prelude::*;

use crate::shim::{
    after_read, committed, read_slot, text_view, SlotStore, State, StateKind,
};

verus! {

/// The exit code passed on when the child ends without one (killed by a
/// signal).
pub const SIGNALLED_EXIT_CODE: i32 = 1;

/// The environment variable that names the app namespace.
pub const APPNAME_VAR: &'static str = "NVIM_APPNAME";

/// What the shim launches: the executable, and the namespace to put in the
/// child's environment, if any.
#[derive(Debug, PartialEq, Eq)]
pub struct Launch {
    pub exe_path: String,
    pub appname: Option<String>,
}

/// Why the shim cannot launch anything.
#[derive(Clone, Copy, Debug, PartialEq, Eq, Structural)]
pub enum LaunchError {
    /// The selection names no executable.
    NotInstalled,
}

/// Decides a run of the shim: reads the draft, commits it, and launches its
/// executable under the namespace from the environment (`appname_override`)
/// or else the selection's own.
pub fn prepare_launch(store: &mut SlotStore, appname_override: Option<String>) -> (r: Result<
    Launch,
    LaunchError,
>)
    ensures
        final(store)@ == committed(after_read(old(store)@, StateKind::Draft)),
        ({
            let s = read_slot(old(store)@, StateKind::Draft);
            match r {
                Ok(l) => {
                    &&& s.exe_path == Some(l.exe_path@)
                    &&& text_view(l.appname) == match appname_override {
                        Some(a) => Some(a@),
                        None => s.appname,
                    }
                },
                Err(e) => e == LaunchError::NotInstalled && s.exe_path is None,
            }
        }),
{
    let state = State::read(store);
    State::draft_to_current(store);
    let appname = match appname_override {
        Some(a) => Some(a),
        None => state.appname,
    };
    match state.exe_path {
        Some(exe_path) => Ok(Launch { exe_path, appname }),
        None => Err(LaunchError::NotInstalled),
    }
}

/// The shim's own exit code: the child's, or [`SIGNALLED_EXIT_CODE`] where
/// the child ended without one.
pub fn exit_code(child_code: Option<i32>) -> (r: i32)
    ensures
        r == match child_code {
            Some(c) => c,
            None => SIGNALLED_EXIT_CODE,
        },
{
    match child_code {
        Some(c) => c,
        None => SIGNALLED_EXIT_CODE,
    }
}

} // verus!
