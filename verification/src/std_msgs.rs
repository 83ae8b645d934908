//! The time stamp and the header that most messages carry.

use crate::clock::now_since_epoch;
use crate::primitives::{is_alphanumeric_text, random_string};
use vstd::prelude::*;

verus! {

/// A point in time: whole seconds since the Unix epoch and the nanoseconds
/// beyond them.
#[derive(Clone, Copy, Debug, PartialEq, Eq)]
pub struct Time {
    pub sec: u64,
    pub nanosec: u32,
}

impl Time {
    /// The nanoseconds amount to less than one second.
    pub open spec fn is_normalized(&self) -> bool {
        self.nanosec < 1_000_000_000
    }
}

/// Metadata attached to most messages: when it was made, and the name of the
/// coordinate frame it refers to.
#[derive(Clone, Debug, PartialEq, Eq)]
pub struct Header {
    pub stamp: Time,
    pub frame_id: String,
}

/// Why a message could not be sampled.
#[derive(Clone, Copy, Debug, PartialEq, Eq)]
pub enum SampleError {
    /// The system clock reports a time before the Unix epoch.
    ClockBeforeEpoch,
}

/// The number of characters in a sampled frame identifier.
pub const FRAME_ID_LENGTH: usize = 16;

impl Header {
    /// What every sampled header satisfies: a normalized stamp and a frame
    /// identifier of sixteen alphanumeric characters.
    pub open spec fn is_fixture(&self) -> bool {
        &&& self.stamp.is_normalized()
        &&& is_alphanumeric_text(self.frame_id@, FRAME_ID_LENGTH as nat)
    }

    /// The header for a given clock reading: stamped with the reading, or
    /// refused when there is none because the clock was before the epoch.
    pub open spec fn stamped(reading: Option<Time>, frame_id: String) -> Result<Header, SampleError> {
        match reading {
            Some(stamp) => Ok(Header { stamp, frame_id }),
            None => Err(SampleError::ClockBeforeEpoch),
        }
    }

    /// The header for a given clock reading, as `stamped` describes it.
    pub fn at(reading: Option<Time>, frame_id: String) -> (made: Result<Header, SampleError>)
        ensures
            made == Header::stamped(reading, frame_id),
    {
        match reading {
            Some(stamp) => Ok(Header { stamp, frame_id }),
            None => Err(SampleError::ClockBeforeEpoch),
        }
    }

    /// A header stamped with the wall-clock time at the moment of the call,
    /// under a random frame identifier. The only failure is a clock that
    /// reports a time before the epoch.
    pub fn sample() -> (made: Result<Header, SampleError>)
        ensures
            made matches Ok(header) ==> header.is_fixture(),
    {
        let reading = now_since_epoch();
        let frame_id = random_string(FRAME_ID_LENGTH);
        Header::at(reading, frame_id)
    }
}

} // verus!
