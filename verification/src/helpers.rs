//! Small conversions shared by the capability drivers.

use vstd::prelude::*;

use crate::engine::action_view;
use crate::text::{contains_seq, contains_str};

verus! {

/// Collapsing an observed process exit into plain success or failure.
pub trait ExitStatusIntoUnit {
    /// The collapsed result.
    spec fn spec_status_to_unit(self) -> Result<(), Seq<char>>;

    /// Collapse: a clean exit is success; anything else is a failure that
    /// carries a message.
    fn status_to_unit(self) -> (r: Result<(), String>)
        ensures
            action_view(r) == self.spec_status_to_unit(),
    ;
}

/// The observed end of a process: `Ok(exited_cleanly)` when it ran at all,
/// `Err` with a message when it could not be run.
impl ExitStatusIntoUnit for Result<bool, String> {
    open spec fn spec_status_to_unit(self) -> Result<(), Seq<char>> {
        match self {
            Ok(true) => Ok(()),
            Ok(false) => Err("The exit code of the operation was not successful."@),
            Err(m) => Err(m@),
        }
    }

    fn status_to_unit(self) -> (r: Result<(), String>) {
        match self {
            Ok(true) => Ok(()),
            Ok(false) => Err("The exit code of the operation was not successful.".to_owned()),
            Err(m) => Err(m),
        }
    }
}

/// The decision inside the execution-context check: the process runs inside
/// a container exactly when its control-group listing mentions the container
/// runtime's name.
pub fn cgroup_mentions_docker(cgroup: &str) -> (b: bool)
    ensures
        b == contains_seq(cgroup@, "docker"@),
{
    contains_str(cgroup, "docker")
}

} // verus!
