use crate::config::Config;
use crate::sources::TrackSource;
use crate::state::{first_playing, same_state, state_of, PlaybackState};
use crate::track::Track;
use vstd::prelude::*;

verus! {

/// The synchronization loop's own state: the configuration, the sources in
/// priority order, and the last state that was pushed to the peer.
pub struct App<S> {
    config: Config,
    sources: Vec<S>,
    playback_state: PlaybackState,
}

impl<S: TrackSource> App<S> {
    /// The last state pushed to the peer.
    pub closed spec fn current(&self) -> PlaybackState {
        self.playback_state
    }

    /// The configuration the loop runs with.
    pub closed spec fn settings(&self) -> Config {
        self.config
    }

    /// The sources, in the order in which they are polled.
    pub closed spec fn source_list(&self) -> Seq<S> {
        self.sources@
    }

    /// How many sources are polled.
    pub closed spec fn source_count(&self) -> nat {
        self.sources@.len()
    }

    /// A loop that has pushed nothing yet, so its state is `Stopped`.
    pub fn new(config: Config, sources: Vec<S>) -> (r: App<S>)
        ensures
            r.current() == PlaybackState::Stopped,
            r.settings() == config,
            r.source_list() == sources@,
            r.source_count() == sources@.len(),
    {
        App { config, sources, playback_state: PlaybackState::Stopped }
    }

    /// Reads every source, in order, and returns the first playing state,
    /// or `Stopped` where none plays.
    pub fn poll(&self) -> (r: PlaybackState)
        ensures
            exists|readings: Seq<Option<Track>>|
                readings.len() == self.source_count() && (forall|i: int|
                    0 <= i < readings.len() ==> call_ensures(
                        S::current_track,
                        (&self.source_list()[i],),
                        #[trigger] readings[i],
                    )) && r == first_playing(readings.map_values(|t: Option<Track>| state_of(t))),
    {
        let mut states: Vec<PlaybackState> = Vec::new();
        let ghost mut readings: Seq<Option<Track>> = Seq::empty();
        let mut i: usize = 0;
        while i < self.sources.len()
            invariant
                0 <= i <= self.sources@.len(),
                states@.len() == i,
                readings.len() == i,
                forall|j: int|
                    0 <= j < i ==> call_ensures(
                        S::current_track,
                        (&self.sources@[j],),
                        #[trigger] readings[j],
                    ),
                forall|j: int| 0 <= j < i ==> #[trigger] states@[j] == state_of(readings[j]),
            decreases self.sources@.len() - i,
        {
            let state = PlaybackState::derive_state(&self.sources[i]);
            proof {
                let t = choose|t: Option<Track>|
                    call_ensures(S::current_track, (&self.sources@[i as int],), t) && state
                        == state_of(t);
                readings = readings.push(t);
            }
            states.push(state);
            i = i + 1;
        }
        proof {
            assert(states@ =~= readings.map_values(|t: Option<Track>| state_of(t)));
        }
        PlaybackState::select(states)
    }

    /// Records a freshly derived state. Returns whether it differs from the
    /// stored one, which is exactly when the peer must be updated; only then
    /// is it stored.
    pub fn observe(&mut self, new_state: PlaybackState) -> (changed: bool)
        ensures
            changed == !same_state(old(self).current(), new_state),
            changed ==> final(self).current() == new_state,
            !changed ==> final(self).current() == old(self).current(),
            final(self).settings() == old(self).settings(),
            final(self).source_list() == old(self).source_list(),
            final(self).source_count() == old(self).source_count(),
    {
        if new_state != self.playback_state {
            self.playback_state = new_state;
            true
        } else {
            false
        }
    }

    /// Seconds to sleep before the next poll: the playing interval while a
    /// track plays, the idle interval otherwise.
    pub fn interval(&self) -> (r: u64)
        ensures
            r == if self.current() is Playing {
                self.settings().poll_playing
            } else {
                self.settings().poll_idle
            },
    {
        if self.playback_state.is_playing() {
            self.config.poll_playing
        } else {
            self.config.poll_idle
        }
    }

    /// The last state pushed to the peer.
    pub fn state(&self) -> (r: &PlaybackState)
        ensures
            *r == self.current(),
    {
        &self.playback_state
    }

    /// The configuration the loop runs with.
    pub fn config(&self) -> (r: &Config)
        ensures
            *r == self.settings(),
    {
        &self.config
    }
}

} // verus!
