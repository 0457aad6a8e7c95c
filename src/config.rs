use crate::text::{contains_text, lowercase, lower_of, normalize, normalized, occurs_in};
use crate::track::{opt_text, opt_texts, texts, Track};
use vstd::prelude::*;

verus! {

/// The icon key used for a player outside the known vocabulary.
pub open spec fn fallback_icon() -> Seq<char> {
    seq!['i', 'c', 'o', 'n']
}

/// Poll intervals, exclusion lists, peer identity and the players that have
/// an icon of their own.
#[derive(Debug)]
pub struct Config {
    /// Seconds between polls while media is playing.
    pub poll_playing: u64,
    /// Seconds between polls, and between connection attempts, while idle.
    pub poll_idle: u64,
    /// Players whose media is never shown (compared normalized).
    pub excluded_players: Vec<String>,
    /// Titles that are never shown (compared exactly).
    pub excluded_titles: Vec<String>,
    /// Artists whose media is never shown (compared exactly).
    pub excluded_artists: Vec<String>,
    /// URL fragments whose media is never shown (compared in lower case).
    pub excluded_urls: Vec<String>,
    /// The identity of the application on the presence peer.
    pub client_id: String,
    /// Players that have an icon of their own (compared normalized).
    pub known_players: Vec<String>,
}

/// `key` is exactly one of `keys`.
pub open spec fn has_key(keys: Seq<String>, key: Seq<char>) -> bool {
    exists|i: int| 0 <= i < keys.len() && #[trigger] keys[i]@ == key
}

/// Whether `key` is exactly one of `keys`.
pub fn matches_key(key: &String, keys: &Vec<String>) -> (r: bool)
    ensures
        r == has_key(keys@, key@),
{
    let mut i: usize = 0;
    while i < keys.len()
        invariant
            0 <= i <= keys@.len(),
            forall|j: int| 0 <= j < i ==> #[trigger] keys@[j]@ != key@,
        decreases keys@.len() - i,
    {
        if keys[i] == *key {
            return true;
        }
        i = i + 1;
    }
    false
}

/// The icon key for a normalized player name, given the normalized names of
/// the known players: the name itself where it is one of them, the generic
/// key otherwise.
pub fn image_for_key(key: String, known_keys: &Vec<String>) -> (r: String)
    ensures
        r@ == if has_key(known_keys@, key@) {
            key@
        } else {
            fallback_icon()
        },
{
    if matches_key(&key, known_keys) {
        key
    } else {
        proof {
            reveal_strlit("icon");
        }
        "icon".to_owned()
    }
}

/// The normalized form of each name, in order.
fn normalize_all(names: &Vec<String>) -> (r: Vec<String>)
    ensures
        r@.len() == names@.len(),
        forall|i: int| 0 <= i < names@.len() ==> #[trigger] r@[i]@ == normalized(names@[i]@),
{
    let mut r: Vec<String> = Vec::new();
    let mut i: usize = 0;
    while i < names.len()
        invariant
            0 <= i <= names@.len(),
            r@.len() == i,
            forall|j: int| 0 <= j < i ==> #[trigger] r@[j]@ == normalized(names@[j]@),
        decreases names@.len() - i,
    {
        r.push(normalize(names[i].as_str()));
        i = i + 1;
    }
    r
}

/// Player names are compared normalized: two tracks that agree but for
/// player names with the same normalized form are excluded alike.
pub proof fn lemma_player_match_ignores_case_and_spaces(config: Config, a: Track, b: Track)
    requires
        normalized(a.player@) == normalized(b.player@),
        a.title@ == b.title@,
        opt_text(a.url) == opt_text(b.url),
        opt_texts(a.artists) == opt_texts(b.artists),
    ensures
        config.excludes(a) == config.excludes(b),
{
}

/// A track is excluded exactly when its normalized player name matches an
/// excluded player, its title is exactly an excluded title, one of its
/// artists is exactly an excluded artist, or an excluded URL occurs in its
/// URL regardless of case. A track without artists or URL is excluded only
/// by its player or its title.
pub proof fn lemma_exclusion_rules(config: Config, t: Track)
    ensures
        config.excludes(t) <==> {
            ||| exists|i: int|
                0 <= i < config.excluded_players@.len() && normalized(
                    #[trigger] config.excluded_players@[i]@,
                ) == normalized(t.player@)
            ||| exists|i: int|
                0 <= i < config.excluded_titles@.len() && #[trigger] config.excluded_titles@[i]@
                    == t.title@
            ||| (t.artists matches Some(a) && exists|j: int, i: int|
                0 <= j < a@.len() && 0 <= i < config.excluded_artists@.len()
                    && #[trigger] config.excluded_artists@[i]@ == #[trigger] a@[j]@)
            ||| (t.url matches Some(u) && exists|i: int|
                0 <= i < config.excluded_urls@.len() && occurs_in(
                    lower_of(#[trigger] config.excluded_urls@[i]@),
                    lower_of(u@),
                ))
        },
        t.artists is None && t.url is None ==> (config.excludes(t) <==> (config.player_excluded(
            t.player@,
        ) || config.title_excluded(t.title@))),
{
    if let Some(a) = t.artists {
        if config.artists_excluded(opt_texts(t.artists)) {
            let j = choose|j: int|
                0 <= j < texts(a@).len() && config.artist_excluded(#[trigger] texts(a@)[j]);
            let i = choose|i: int|
                0 <= i < config.excluded_artists@.len() && #[trigger] config.excluded_artists@[i]@
                    == texts(a@)[j];
            assert(config.excluded_artists@[i]@ == a@[j]@);
        }
        if exists|j: int, i: int|
            0 <= j < a@.len() && 0 <= i < config.excluded_artists@.len()
                && #[trigger] config.excluded_artists@[i]@ == #[trigger] a@[j]@ {
            let (j, i) = choose|j: int, i: int|
                0 <= j < a@.len() && 0 <= i < config.excluded_artists@.len()
                    && #[trigger] config.excluded_artists@[i]@ == #[trigger] a@[j]@;
            assert(config.artist_excluded(texts(a@)[j]));
        }
    }
}

/// The icon key is a function of the normalized player name; a name that
/// matches no known player gets the generic key, and a match gets the
/// normalized name.
pub proof fn lemma_player_image(config: Config, a: Seq<char>, b: Seq<char>)
    ensures
        normalized(a) == normalized(b) ==> config.image_of(a) == config.image_of(b),
        (forall|i: int|
            0 <= i < config.known_players@.len() ==> normalized(
                #[trigger] config.known_players@[i]@,
            ) != normalized(a)) ==> config.image_of(a) == fallback_icon(),
        (exists|i: int|
            0 <= i < config.known_players@.len() && normalized(
                #[trigger] config.known_players@[i]@,
            ) == normalized(a)) ==> config.image_of(a) == normalized(a),
{
}

impl Config {
    /// Some known player has the same normalized name as `player`.
    pub open spec fn is_known(self, player: Seq<char>) -> bool {
        exists|i: int|
            0 <= i < self.known_players@.len() && normalized(#[trigger] self.known_players@[i]@)
                == normalized(player)
    }

    /// The icon key for `player`.
    pub open spec fn image_of(self, player: Seq<char>) -> Seq<char> {
        if self.is_known(player) {
            normalized(player)
        } else {
            fallback_icon()
        }
    }

    /// Some excluded player has the same normalized name as `player`.
    pub open spec fn player_excluded(self, player: Seq<char>) -> bool {
        exists|i: int|
            0 <= i < self.excluded_players@.len() && normalized(
                #[trigger] self.excluded_players@[i]@,
            ) == normalized(player)
    }

    /// Some excluded title is exactly `title`.
    pub open spec fn title_excluded(self, title: Seq<char>) -> bool {
        exists|i: int|
            0 <= i < self.excluded_titles@.len() && #[trigger] self.excluded_titles@[i]@ == title
    }

    /// The artist is exactly one of the excluded artists.
    pub open spec fn artist_excluded(self, artist: Seq<char>) -> bool {
        exists|i: int|
            0 <= i < self.excluded_artists@.len() && #[trigger] self.excluded_artists@[i]@
                == artist
    }

    /// The track has artists and one of them is excluded.
    pub open spec fn artists_excluded(self, artists: Option<Seq<Seq<char>>>) -> bool {
        match artists {
            Some(a) => exists|j: int| 0 <= j < a.len() && self.artist_excluded(#[trigger] a[j]),
            None => false,
        }
    }

    /// The track has a URL, and some excluded URL occurs in it, both in
    /// lower case.
    pub open spec fn url_excluded(self, url: Option<Seq<char>>) -> bool {
        match url {
            Some(u) => exists|i: int|
                0 <= i < self.excluded_urls@.len() && occurs_in(
                    lower_of(#[trigger] self.excluded_urls@[i]@),
                    lower_of(u),
                ),
            None => false,
        }
    }

    /// The track must not be shown on the presence peer.
    pub open spec fn excludes(self, track: Track) -> bool {
        ||| self.player_excluded(track.player@)
        ||| self.title_excluded(track.title@)
        ||| self.artists_excluded(opt_texts(track.artists))
        ||| self.url_excluded(opt_text(track.url))
    }

    /// The icon key for `player`: its normalized name where a known player
    /// normalizes to the same name, the generic key otherwise.
    pub fn get_player_image(&self, player: &str) -> (r: String)
        ensures
            r@ == self.image_of(player@),
    {
        let key = normalize(player);
        let keys = normalize_all(&self.known_players);
        proof {
            if self.is_known(player@) {
                let i = choose|i: int|
                    0 <= i < self.known_players@.len() && normalized(
                        #[trigger] self.known_players@[i]@,
                    ) == normalized(player@);
                assert(keys@[i]@ == key@);
            }
        }
        image_for_key(key, &keys)
    }

    /// Whether the track must be left out of what is shown on the peer.
    pub fn excluded(&self, track: &Track) -> (r: bool)
        ensures
            r == self.excludes(*track),
    {
        if self.has_excluded_player(track.player.as_str()) {
            return true;
        }
        if self.has_excluded_title(&track.title) {
            return true;
        }
        if let Some(artists) = &track.artists {
            let mut j: usize = 0;
            while j < artists.len()
                invariant
                    track.artists == Some(*artists),
                    0 <= j <= artists@.len(),
                    forall|k: int| 0 <= k < j ==> !self.artist_excluded(#[trigger] artists@[k]@),
                decreases artists@.len() - j,
            {
                if self.has_excluded_artist(&artists[j]) {
                    assert(opt_texts(track.artists)->0[j as int] == artists@[j as int]@);
                    return true;
                }
                j = j + 1;
            }
            assert(!self.artists_excluded(opt_texts(track.artists)));
        }
        if let Some(url) = &track.url {
            let url = lowercase(url.as_str());
            let mut i: usize = 0;
            while i < self.excluded_urls.len()
                invariant
                    track.url is Some,
                    url@ == lower_of(opt_text(track.url)->0),
                    0 <= i <= self.excluded_urls@.len(),
                    forall|k: int|
                        0 <= k < i ==> !occurs_in(
                            lower_of(#[trigger] self.excluded_urls@[k]@),
                            url@,
                        ),
                decreases self.excluded_urls@.len() - i,
            {
                let fragment = lowercase(self.excluded_urls[i].as_str());
                if contains_text(url.as_str(), fragment.as_str()) {
                    return true;
                }
                i = i + 1;
            }
        }
        false
    }

    fn has_excluded_player(&self, player: &str) -> (r: bool)
        ensures
            r == self.player_excluded(player@),
    {
        let key = normalize(player);
        let keys = normalize_all(&self.excluded_players);
        proof {
            if self.player_excluded(player@) {
                let i = choose|i: int|
                    0 <= i < self.excluded_players@.len() && normalized(
                        #[trigger] self.excluded_players@[i]@,
                    ) == normalized(player@);
                assert(keys@[i]@ == key@);
            }
        }
        matches_key(&key, &keys)
    }

    fn has_excluded_title(&self, title: &String) -> (r: bool)
        ensures
            r == self.title_excluded(title@),
    {
        let mut i: usize = 0;
        while i < self.excluded_titles.len()
            invariant
                0 <= i <= self.excluded_titles@.len(),
                forall|j: int| 0 <= j < i ==> #[trigger] self.excluded_titles@[j]@ != title@,
            decreases self.excluded_titles@.len() - i,
        {
            if self.excluded_titles[i] == *title {
                return true;
            }
            i = i + 1;
        }
        false
    }

    fn has_excluded_artist(&self, artist: &String) -> (r: bool)
        ensures
            r == self.artist_excluded(artist@),
    {
        let mut i: usize = 0;
        while i < self.excluded_artists.len()
            invariant
                0 <= i <= self.excluded_artists@.len(),
                forall|j: int| 0 <= j < i ==> #[trigger] self.excluded_artists@[j]@ != artist@,
            decreases self.excluded_artists@.len() - i,
        {
            if self.excluded_artists[i] == *artist {
                return true;
            }
            i = i + 1;
        }
        false
    }
}

} // verus!
