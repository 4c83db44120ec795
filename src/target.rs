//! The supervised target, fixed at startup.
use vstd::prelude::*;

verus! {

/// The poll interval, in seconds, when none is given.
pub const DEFAULT_POLL_INTERVAL_SECS: u64 = 1;

/// The executable to supervise, the file its arguments are read from before
/// every launch, and how often its image is checked for a change.
pub struct TargetSpec {
    binary_path: String,
    args_path: String,
    poll_interval_secs: u64,
}

impl TargetSpec {
    pub closed spec fn binary_path_spec(&self) -> Seq<char> {
        self.binary_path@
    }

    pub closed spec fn args_path_spec(&self) -> Seq<char> {
        self.args_path@
    }

    pub closed spec fn poll_interval_spec(&self) -> u64 {
        self.poll_interval_secs
    }

    pub fn new(binary_path: String, args_path: String, poll_interval_secs: u64) -> (r: TargetSpec)
        ensures
            r.binary_path_spec() == binary_path@,
            r.args_path_spec() == args_path@,
            r.poll_interval_spec() == poll_interval_secs,
    {
        TargetSpec { binary_path, args_path, poll_interval_secs }
    }

    pub fn binary_path(&self) -> (r: &str)
        ensures
            r@ == self.binary_path_spec(),
    {
        self.binary_path.as_str()
    }

    pub fn args_path(&self) -> (r: &str)
        ensures
            r@ == self.args_path_spec(),
    {
        self.args_path.as_str()
    }

    pub fn poll_interval_secs(&self) -> (r: u64)
        ensures
            r == self.poll_interval_spec(),
    {
        self.poll_interval_secs
    }
}

} // verus!
