use crate::config::Config;
use crate::span::{max_total, Span, NANOS_PER_SEC};
use crate::state::PlaybackState;
use crate::track::{opt_text, texts, Track};
use vstd::prelude::*;
use vstd::string::StringExecFns;

verus! {

/// The parts joined in order, with `sep` between each two neighbours.
pub open spec fn joined(parts: Seq<Seq<char>>, sep: Seq<char>) -> Seq<char>
    decreases parts.len(),
{
    if parts.len() == 0 {
        Seq::empty()
    } else if parts.len() == 1 {
        parts[0]
    } else {
        joined(parts.drop_last(), sep) + sep + parts.last()
    }
}

/// The separator between artist names.
pub open spec fn artist_separator() -> Seq<char> {
    seq![',', ' ']
}

/// The items in order with `sep` between each two neighbours.
pub fn join_names(parts: &Vec<String>, sep: &str) -> (r: String)
    ensures
        r@ == joined(texts(parts@), sep@),
{
    let mut r = String::from_str("");
    proof {
        reveal_strlit("");
        assert(texts(parts@.subrange(0, 0)).len() == 0);
    }
    let mut i: usize = 0;
    while i < parts.len()
        invariant
            0 <= i <= parts@.len(),
            r@ == joined(texts(parts@.subrange(0, i as int)), sep@),
        decreases parts@.len() - i,
    {
        let ghost before = texts(parts@.subrange(0, i as int));
        let ghost after = texts(parts@.subrange(0, i + 1));
        assert(after.drop_last() =~= before);
        assert(after.last() == parts@[i as int]@);
        if i > 0 {
            r.append(sep);
        }
        r.append(parts[i].as_str());
        i = i + 1;
    }
    assert(parts@.subrange(0, parts@.len() as int) =~= parts@);
    r
}

/// Absolute start and end of the track, in whole seconds since the epoch.
#[derive(Clone, Copy, Debug, PartialEq, Eq, Structural)]
pub struct Timestamps {
    pub start: i64,
    pub end: i64,
}

/// What the presence peer is asked to show for a playing track.
#[derive(Debug)]
pub struct Payload {
    /// The track's title.
    pub details: String,
    /// The track's URL, linked from the title.
    pub details_url: Option<String>,
    /// The artists, joined by `", "`.
    pub state: Option<String>,
    /// The application's own icon.
    pub large_image: String,
    /// The icon key of the player.
    pub small_image: String,
    /// The player's name.
    pub small_text: String,
    /// When the track started and when it ends.
    pub timestamps: Option<Timestamps>,
}

/// What the presence session sends to the peer.
#[derive(Debug)]
pub enum Request {
    /// Show this payload.
    Show(Payload),
    /// Show nothing.
    Clear,
}

/// Start and end of the track, given the time since the epoch now: only
/// for a running track whose position and length are known, and only where
/// neither value falls outside what a span and an `i64` hold. A span whose
/// nanosecond field is a second or more counts as unknown.
pub open spec fn timestamps_at(track: Track, now: Option<Span>) -> Option<Timestamps> {
    if track.paused || !(track.position matches Some(p) && p.wf()) || !(track.length matches Some(
        l,
    ) && l.wf()) || !(now matches Some(n) && n.wf()) {
        None
    } else {
        let start = now->0.total() - track.position->0.total();
        let end = start + track.length->0.total();
        let start_secs = start / NANOS_PER_SEC as int;
        let end_secs = end / NANOS_PER_SEC as int;
        if start < 0 || end > max_total() || start_secs > i64::MAX || end_secs > i64::MAX {
            None
        } else {
            Some(Timestamps { start: start_secs as i64, end: end_secs as i64 })
        }
    }
}

/// A running track at 30 s of 180 s, observed at time `now`, started
/// 30 s before `now` and ends 180 s after its start, both in whole seconds;
/// a paused track gets no timestamps, whatever its position and length.
pub proof fn lemma_timestamps_from_position(track: Track, now: Span)
    requires
        track.position == Some(Span { secs: 30, nanos: 0 }),
        track.length == Some(Span { secs: 180, nanos: 0 }),
        now.wf(),
        now.secs >= 30,
        now.secs <= i64::MAX - 150,
    ensures
        !track.paused ==> timestamps_at(track, Some(now)) == Some(
            Timestamps { start: (now.secs - 30) as i64, end: (now.secs - 30 + 180) as i64 },
        ),
        track.paused ==> timestamps_at(track, Some(now)) is None,
{
    let ns = NANOS_PER_SEC as int;
    let start = now.total() - 30 * ns;
    let end = start + 180 * ns;
    assert(start == (now.secs - 30) * ns + now.nanos) by (nonlinear_arith)
        requires
            start == now.total() - 30 * ns,
            now.total() == now.secs * ns + now.nanos,
    ;
    assert(end == (now.secs - 30 + 180) * ns + now.nanos) by (nonlinear_arith)
        requires
            end == start + 180 * ns,
            start == (now.secs - 30) * ns + now.nanos,
    ;
    vstd::arithmetic::div_mod::lemma_fundamental_div_mod_converse(
        start,
        ns,
        now.secs - 30,
        now.nanos as int,
    );
    vstd::arithmetic::div_mod::lemma_fundamental_div_mod_converse(
        end,
        ns,
        now.secs - 30 + 180,
        now.nanos as int,
    );
    assert(end <= max_total()) by (nonlinear_arith)
        requires
            end == (now.secs - 30 + 180) * ns + now.nanos,
            now.secs - 30 + 180 <= u64::MAX,
            now.nanos < ns,
            ns == 1_000_000_000,
    ;
}

/// `p` is the payload that shows `track` at time `now`.
pub open spec fn is_payload_of(p: Payload, track: Track, config: Config, now: Option<Span>) -> bool {
    &&& p.details@ == track.title@
    &&& opt_text(p.details_url) == opt_text(track.url)
    &&& opt_text(p.state) == (match track.artists {
        Some(a) => Some(joined(texts(a@), artist_separator())),
        None => None,
    })
    &&& p.large_image@ == seq!['i', 'c', 'o', 'n']
    &&& p.small_image@ == config.image_of(track.player@)
    &&& p.small_text@ == track.player@
    &&& p.timestamps == timestamps_at(track, now)
}

/// Start and end of a running track, reconstructed from its position, its
/// length and the time since the epoch now.
pub fn build_timestamps(track: &Track, now: Option<Span>) -> (r: Option<Timestamps>)
    ensures
        r == timestamps_at(*track, now),
{
    if track.paused {
        return None;
    }
    match (track.position, track.length, now) {
        (Some(position), Some(length), Some(now)) => {
            if position.nanos >= NANOS_PER_SEC || length.nanos >= NANOS_PER_SEC || now.nanos
                >= NANOS_PER_SEC {
                return None;
            }
            let start = match now.checked_sub(position) {
                Some(s) => s,
                None => return None,
            };
            let end = match start.checked_add(length) {
                Some(e) => e,
                None => return None,
            };
            let start_secs = start.as_secs();
            let end_secs = end.as_secs();
            if start_secs > i64::MAX as u64 || end_secs > i64::MAX as u64 {
                None
            } else {
                Some(Timestamps { start: start_secs as i64, end: end_secs as i64 })
            }
        },
        _ => None,
    }
}

/// The payload that shows `track`.
pub fn build_payload(track: &Track, config: &Config, now: Option<Span>) -> (r: Payload)
    ensures
        is_payload_of(r, *track, *config, now),
{
    let details_url = match &track.url {
        Some(url) => Some(url.clone()),
        None => None,
    };
    let separator: &str = ", ";
    let icon: &str = "icon";
    proof {
        reveal_strlit(", ");
        reveal_strlit("icon");
        assert(separator@ =~= artist_separator());
        assert(icon@ =~= seq!['i', 'c', 'o', 'n']);
    }
    let state = match &track.artists {
        Some(artists) => Some(join_names(artists, separator)),
        None => None,
    };
    Payload {
        details: track.title.clone(),
        details_url,
        state,
        large_image: icon.to_owned(),
        small_image: config.get_player_image(track.player.as_str()),
        small_text: track.player.clone(),
        timestamps: build_timestamps(track, now),
    }
}

/// The request that brings the peer in line with `state`: the payload of a
/// playing track that is not excluded, else a request to show nothing.
pub fn build_request(state: &PlaybackState, config: &Config, now: Option<Span>) -> (r: Request)
    ensures
        match *state {
            PlaybackState::Playing(t) => if config.excludes(t) {
                r is Clear
            } else {
                r matches Request::Show(p) && is_payload_of(p, t, *config, now)
            },
            PlaybackState::Stopped => r is Clear,
        },
{
    match state {
        PlaybackState::Playing(track) => {
            if config.excluded(track) {
                Request::Clear
            } else {
                Request::Show(build_payload(track, config, now))
            }
        },
        PlaybackState::Stopped => Request::Clear,
    }
}

} // verus!
