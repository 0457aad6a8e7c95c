use crate::sources::TrackSource;
use crate::track::{same_track, Track};
use vstd::prelude::*;

verus! {

/// What is playing, as derived from the sources on one poll.
#[derive(Debug)]
pub enum PlaybackState {
    Playing(Track),
    Stopped,
}

/// Two states are the same when both are stopped, or both play the same
/// track.
pub open spec fn same_state(a: PlaybackState, b: PlaybackState) -> bool {
    match (a, b) {
        (PlaybackState::Playing(x), PlaybackState::Playing(y)) => same_track(x, y),
        (PlaybackState::Stopped, PlaybackState::Stopped) => true,
        _ => false,
    }
}

/// The state of a single reading.
pub open spec fn state_of(reading: Option<Track>) -> PlaybackState {
    match reading {
        Some(t) => PlaybackState::Playing(t),
        None => PlaybackState::Stopped,
    }
}

/// The first playing state at or after index `i`, or `Stopped`.
pub open spec fn first_playing_from(states: Seq<PlaybackState>, i: int) -> PlaybackState
    decreases states.len() - i,
{
    if i < 0 || i >= states.len() {
        PlaybackState::Stopped
    } else if states[i] is Playing {
        states[i]
    } else {
        first_playing_from(states, i + 1)
    }
}

/// The first playing state in list order, or `Stopped` where none plays.
pub open spec fn first_playing(states: Seq<PlaybackState>) -> PlaybackState {
    first_playing_from(states, 0)
}

/// Over two sources, the first one's track wins where it has one; else the
/// second one's; and the state is `Stopped` where neither has a track.
pub proof fn lemma_first_source_wins(a: Option<Track>, b: Option<Track>)
    ensures
        first_playing(seq![state_of(a), state_of(b)]) == (match (a, b) {
            (Some(x), _) => PlaybackState::Playing(x),
            (None, Some(y)) => PlaybackState::Playing(y),
            (None, None) => PlaybackState::Stopped,
        }),
{
    let s = seq![state_of(a), state_of(b)];
    assert(s.len() == 2);
    assert(s[0] == state_of(a) && s[1] == state_of(b));
    assert(first_playing_from(s, 2) == PlaybackState::Stopped);
    assert(first_playing_from(s, 1) == if s[1] is Playing {
        s[1]
    } else {
        PlaybackState::Stopped
    });
    assert(first_playing(s) == if s[0] is Playing {
        s[0]
    } else {
        first_playing_from(s, 1)
    });
}

/// Every state is the same as itself, so a state derived again unchanged
/// is never a change; and sameness does not depend on the order of the two.
pub proof fn lemma_same_state(a: PlaybackState, b: PlaybackState)
    ensures
        same_state(a, a),
        same_state(a, b) == same_state(b, a),
{
}

impl PartialEq for PlaybackState {
    fn eq(&self, other: &PlaybackState) -> (r: bool) {
        match (self, other) {
            (PlaybackState::Playing(x), PlaybackState::Playing(y)) => *x == *y,
            (PlaybackState::Stopped, PlaybackState::Stopped) => true,
            _ => false,
        }
    }
}

impl vstd::std_specs::cmp::PartialEqSpecImpl for PlaybackState {
    open spec fn obeys_eq_spec() -> bool {
        true
    }

    open spec fn eq_spec(&self, other: &PlaybackState) -> bool {
        same_state(*self, *other)
    }
}

/// The element at index `i`, moved out of the list.
fn take(states: Vec<PlaybackState>, i: usize) -> (r: PlaybackState)
    requires
        i < states@.len(),
    ensures
        r == states@[i as int],
{
    let mut rest = states;
    rest.swap_remove(i)
}

impl PlaybackState {
    /// The state that one source reports now.
    pub fn derive_state<S: TrackSource>(source: &S) -> (r: PlaybackState)
        ensures
            exists|t: Option<Track>|
                call_ensures(S::current_track, (source,), t) && r == state_of(t),
    {
        let reading = source.current_track();
        proof {
            assert(call_ensures(S::current_track, (source,), reading));
        }
        Self::from_reading(reading)
    }

    /// `Playing` with the track read, or `Stopped` where none was.
    pub fn from_reading(reading: Option<Track>) -> (r: PlaybackState)
        ensures
            r == state_of(reading),
    {
        match reading {
            Some(track) => PlaybackState::Playing(track),
            None => PlaybackState::Stopped,
        }
    }

    /// Whether a track is playing.
    pub fn is_playing(&self) -> (r: bool)
        ensures
            r == (*self is Playing),
    {
        matches!(self, PlaybackState::Playing(_))
    }

    /// The first playing state of the list, in list order; `Stopped` where
    /// none plays.
    pub fn select(states: Vec<PlaybackState>) -> (r: PlaybackState)
        ensures
            r == first_playing(states@),
    {
        let ghost all = states@;
        let mut i: usize = 0;
        while i < states.len()
            invariant
                0 <= i <= states@.len(),
                states@ == all,
                first_playing_from(all, i as int) == first_playing(all),
            decreases states@.len() - i,
        {
            if states[i].is_playing() {
                assert(first_playing_from(all, i as int) == all[i as int]);
                return take(states, i);
            }
            i = i + 1;
        }
        PlaybackState::Stopped
    }
}

} // verus!
