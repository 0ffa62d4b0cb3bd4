//! Points in time.

use vstd::prelude::*;
use vstd::std_specs::convert::FromSpecImpl;

verus! {

/// A point in time: milliseconds since the Unix epoch.
#[derive(Clone, Copy, Debug, PartialEq, Eq, Structural, PartialOrd, Ord)]
pub struct UnixEpochTime(pub u64);

impl UnixEpochTime {
    /// The Unix epoch itself.
    pub fn unix_epoch() -> (time: Self)
        ensures
            time.0 == 0,
    {
        UnixEpochTime(0)
    }

    pub fn new(milliseconds: u64) -> (time: Self)
        ensures
            time.0 == milliseconds,
    {
        UnixEpochTime(milliseconds)
    }

    /// Milliseconds since the epoch.
    pub fn millis(self) -> (milliseconds: u64)
        ensures
            milliseconds == self.0,
    {
        self.0
    }

    /// Whole seconds since the epoch.
    pub fn seconds(self) -> (seconds: u64)
        ensures
            seconds == self.0 / 1000,
    {
        self.0 / 1000
    }
}

impl From<u64> for UnixEpochTime {
    fn from(value: u64) -> (time: Self) {
        Self::new(value)
    }
}

impl FromSpecImpl<u64> for UnixEpochTime {
    open spec fn obeys_from_spec() -> bool {
        true
    }

    open spec fn from_spec(value: u64) -> Self {
        UnixEpochTime(value)
    }
}

impl From<UnixEpochTime> for u64 {
    fn from(val: UnixEpochTime) -> (value: u64) {
        val.0
    }
}

impl FromSpecImpl<UnixEpochTime> for u64 {
    open spec fn obeys_from_spec() -> bool {
        true
    }

    open spec fn from_spec(val: UnixEpochTime) -> u64 {
        val.0
    }
}

} // verus!
