//! What a scheduled, unattended caller has to set up first.
//!
//! A process started by a scheduler has no display and no session bus. Both
//! are found from the numeric id of the user, which `id -u` prints.

use crate::process::{Command, CommandView};
use crate::text::{trim, trimmed};
use vstd::prelude::*;
use vstd::string::*;

verus! {

pub const ID: &'static str = "id";

/// The environment variable that names the display.
pub const DISPLAY_VARIABLE: &'static str = "DISPLAY";

/// The environment variable that holds the address of the session bus.
pub const BUS_VARIABLE: &'static str = "DBUS_SESSION_BUS_ADDRESS";

/// The display of the first session.
pub const DISPLAY: &'static str = ":0";

pub const BUS_HEAD: &'static str = "unix:path=/run/user/";

pub const BUS_TAIL: &'static str = "/bus";

/// The environment that the desktop's tools need: the display and the address of the
/// user's session bus.
#[derive(Debug, PartialEq, Eq)]
pub struct Session {
    pub display: String,
    pub bus_address: String,
}

/// The command of [`user_id`].
pub open spec fn user_id_command() -> CommandView {
    CommandView { program: ID@, args: seq!["-u"@] }
}

/// The address of the session bus of the user whose id `id -u` printed as `stdout`.
pub open spec fn bus_address(stdout: Seq<char>) -> Seq<char> {
    BUS_HEAD@ + trimmed(stdout) + BUS_TAIL@
}

/// The command that prints the numeric id of the user.
pub fn user_id() -> (c: Command)
    ensures
        c@ == user_id_command(),
{
    let c = Command::new(ID).arg("-u");
    assert(c@.args =~= user_id_command().args);
    c
}

/// The environment to set before any other command is run, given what [`user_id`]
/// printed.
pub fn session(stdout: &str) -> (s: Session)
    ensures
        s.display@ == DISPLAY@,
        s.bus_address@ == bus_address(stdout@),
{
    let id = trim(stdout);
    Session {
        display: DISPLAY.to_owned(),
        bus_address: BUS_HEAD.to_owned().concat(id.as_str()).concat(BUS_TAIL),
    }
}

} // verus!
