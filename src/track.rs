use crate::span::Span;
use vstd::prelude::*;

verus! {

/// The character sequences of a list of strings.
pub open spec fn texts(v: Seq<String>) -> Seq<Seq<char>> {
    v.map_values(|s: String| s@)
}

/// The character sequence of an optional string.
pub open spec fn opt_text(o: Option<String>) -> Option<Seq<char>> {
    match o {
        Some(s) => Some(s@),
        None => None,
    }
}

/// The character sequences of an optional list of strings.
pub open spec fn opt_texts(o: Option<Vec<String>>) -> Option<Seq<Seq<char>>> {
    match o {
        Some(v) => Some(texts(v@)),
        None => None,
    }
}

/// One observed moment of playback on one media player.
#[derive(Debug)]
pub struct Track {
    pub player: String,
    pub title: String,
    pub url: Option<String>,
    pub artists: Option<Vec<String>>,
    pub position: Option<Span>,
    pub length: Option<Span>,
    pub paused: bool,
}

/// Two tracks are the same when every field holds the same value.
pub open spec fn same_track(a: Track, b: Track) -> bool {
    &&& a.player@ == b.player@
    &&& a.title@ == b.title@
    &&& opt_text(a.url) == opt_text(b.url)
    &&& opt_texts(a.artists) == opt_texts(b.artists)
    &&& a.position == b.position
    &&& a.length == b.length
    &&& a.paused == b.paused
}

/// The fields of a track, borrowed, in the order they are compared.
type Fingerprint<'a> = (
    &'a String,
    &'a String,
    Option<&'a String>,
    Option<&'a Vec<String>>,
    Option<Span>,
    Option<Span>,
    bool,
);

/// Whether two optional strings hold the same characters.
fn same_opt_text(a: Option<&String>, b: Option<&String>) -> (r: bool)
    ensures
        r == (match (a, b) {
            (Some(x), Some(y)) => x@ == y@,
            (None, None) => true,
            _ => false,
        }),
{
    match (a, b) {
        (Some(x), Some(y)) => *x == *y,
        (None, None) => true,
        _ => false,
    }
}

/// Whether two lists of strings hold the same texts in the same order.
fn same_texts(a: &Vec<String>, b: &Vec<String>) -> (r: bool)
    ensures
        r == (texts(a@) == texts(b@)),
{
    if a.len() != b.len() {
        assert(texts(a@).len() != texts(b@).len());
        return false;
    }
    let mut i: usize = 0;
    while i < a.len()
        invariant
            a@.len() == b@.len(),
            0 <= i <= a@.len(),
            forall|j: int| 0 <= j < i ==> a@[j]@ == b@[j]@,
        decreases a@.len() - i,
    {
        if a[i] != b[i] {
            assert(texts(a@)[i as int] != texts(b@)[i as int]);
            return false;
        }
        i = i + 1;
    }
    assert(texts(a@) =~= texts(b@));
    true
}

/// Whether two optional lists of strings hold the same texts.
fn same_opt_texts(a: Option<&Vec<String>>, b: Option<&Vec<String>>) -> (r: bool)
    ensures
        r == (match (a, b) {
            (Some(x), Some(y)) => texts(x@) == texts(y@),
            (None, None) => true,
            _ => false,
        }),
{
    match (a, b) {
        (Some(x), Some(y)) => same_texts(x, y),
        (None, None) => true,
        _ => false,
    }
}

/// Whether two optional spans are equal.
fn same_opt_span(a: Option<Span>, b: Option<Span>) -> (r: bool)
    ensures
        r == (a == b),
{
    match (a, b) {
        (Some(x), Some(y)) => x == y,
        (None, None) => true,
        _ => false,
    }
}

impl Track {
    /// Borrows every field of the track.
    fn fingerprint(&self) -> (r: Fingerprint<'_>)
        ensures
            r.0 == &self.player,
            r.1 == &self.title,
            r.2 == (match &self.url {
                Some(u) => Some(u),
                None => None,
            }),
            r.3 == (match &self.artists {
                Some(a) => Some(a),
                None => None,
            }),
            r.4 == self.position,
            r.5 == self.length,
            r.6 == self.paused,
    {
        (
            &self.player,
            &self.title,
            match &self.url {
                Some(u) => Some(u),
                None => None,
            },
            match &self.artists {
                Some(a) => Some(a),
                None => None,
            },
            self.position,
            self.length,
            self.paused,
        )
    }
}

/// Every track equals itself, and two tracks that differ in any one field
/// are unequal.
pub proof fn lemma_track_equality(a: Track, b: Track)
    ensures
        same_track(a, a),
        a.player@ != b.player@ ==> !same_track(a, b),
        a.title@ != b.title@ ==> !same_track(a, b),
        opt_text(a.url) != opt_text(b.url) ==> !same_track(a, b),
        opt_texts(a.artists) != opt_texts(b.artists) ==> !same_track(a, b),
        a.position != b.position ==> !same_track(a, b),
        a.length != b.length ==> !same_track(a, b),
        a.paused != b.paused ==> !same_track(a, b),
{
}

impl PartialEq for Track {
    fn eq(&self, other: &Track) -> (r: bool) {
        let a = self.fingerprint();
        let b = other.fingerprint();
        *a.0 == *b.0 && *a.1 == *b.1 && same_opt_text(a.2, b.2) && same_opt_texts(a.3, b.3)
            && same_opt_span(a.4, b.4) && same_opt_span(a.5, b.5) && a.6 == b.6
    }
}

impl vstd::std_specs::cmp::PartialEqSpecImpl for Track {
    open spec fn obeys_eq_spec() -> bool {
        true
    }

    open spec fn eq_spec(&self, other: &Track) -> bool {
        same_track(*self, *other)
    }
}

} // verus!
