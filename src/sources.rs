use crate::track::Track;
use vstd::prelude::*;

verus! {

/// A backend that reports the track currently playing on it, if any.
/// A failed read is reported as no track.
pub trait TrackSource {
    fn current_track(&self) -> Option<Track>;
}

} // verus!
