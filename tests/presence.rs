use track_presence::app::App;
use track_presence::config::Config;
use track_presence::payload::{build_payload, build_request, build_timestamps, Request, Timestamps};
use track_presence::session::{next_action, SessionAction, SessionEvent};
use track_presence::sources::TrackSource;
use track_presence::state::PlaybackState;
use track_presence::track::Track;
use track_presence::Span;

use std::cell::RefCell;

fn config() -> Config {
    Config {
        poll_playing: 1,
        poll_idle: 10,
        client_id: String::new(),
        known_players: vec!["mpv".into()],
        excluded_players: vec![],
        excluded_titles: vec![],
        excluded_artists: vec![],
        excluded_urls: vec![],
    }
}

fn track(title: &str) -> Track {
    Track {
        player: "mpv".into(),
        title: title.into(),
        url: None,
        artists: None,
        position: None,
        length: None,
        paused: false,
    }
}

fn timed_track(paused: bool) -> Track {
    Track {
        position: Some(Span::from_secs(30)),
        length: Some(Span::from_secs(180)),
        paused,
        ..track("Song")
    }
}

struct Fixed(Option<&'static str>);

impl TrackSource for Fixed {
    fn current_track(&self) -> Option<Track> {
        self.0.map(track)
    }
}

struct Scripted {
    readings: RefCell<Vec<Option<&'static str>>>,
}

impl TrackSource for Scripted {
    fn current_track(&self) -> Option<Track> {
        self.readings.borrow_mut().remove(0).map(track)
    }
}

#[test]
fn track_equality_is_structural() {
    let a = track("Song");
    assert!(a == track("Song"));
    assert!(a != Track { player: "vlc".into(), ..track("Song") });
    assert!(a != track("Other"));
    assert!(a != Track { url: Some("u".into()), ..track("Song") });
    assert!(a != Track { artists: Some(vec![]), ..track("Song") });
    assert!(a != Track { position: Some(Span::from_secs(1)), ..track("Song") });
    assert!(a != Track { length: Some(Span::from_secs(1)), ..track("Song") });
    assert!(a != Track { paused: true, ..track("Song") });
    let b = Track { artists: Some(vec!["A".into(), "B".into()]), ..track("Song") };
    assert!(b == Track { artists: Some(vec!["A".into(), "B".into()]), ..track("Song") });
    assert!(b != Track { artists: Some(vec!["B".into(), "A".into()]), ..track("Song") });
}

#[test]
fn state_equality() {
    assert!(PlaybackState::Stopped == PlaybackState::Stopped);
    assert!(PlaybackState::Playing(track("A")) == PlaybackState::Playing(track("A")));
    assert!(PlaybackState::Playing(track("A")) != PlaybackState::Playing(track("B")));
    assert!(PlaybackState::Playing(track("A")) != PlaybackState::Stopped);
}

#[test]
fn timestamps_from_position_and_length() {
    let now = Some(Span { secs: 1_700_000_000, nanos: 250_000_000 });
    let ts = build_timestamps(&timed_track(false), now);
    assert_eq!(ts, Some(Timestamps { start: 1_699_999_970, end: 1_700_000_150 }));
    assert_eq!(build_timestamps(&timed_track(true), now), None);
}

#[test]
fn timestamps_need_position_length_and_clock() {
    let now = Some(Span::from_secs(1000));
    let mut t = timed_track(false);
    t.position = None;
    assert_eq!(build_timestamps(&t, now), None);
    assert_eq!(build_timestamps(&timed_track(false), None), None);
    let early = Some(Span { secs: 29, nanos: 999_999_999 });
    assert_eq!(build_timestamps(&timed_track(false), early), None);
    let huge = Some(Span::from_secs(u64::MAX));
    assert_eq!(build_timestamps(&timed_track(false), huge), None);
}

#[test]
fn span_arithmetic() {
    let a = Span { secs: 5, nanos: 100 };
    let b = Span { secs: 2, nanos: 200 };
    assert_eq!(a.checked_sub(b), Some(Span { secs: 2, nanos: 999_999_900 }));
    assert_eq!(b.checked_sub(a), None);
    let c = Span { secs: 1, nanos: 999_999_999 };
    assert_eq!(c.checked_add(c), Some(Span { secs: 3, nanos: 999_999_998 }));
    assert_eq!(Span::from_secs(u64::MAX).checked_add(Span { secs: 0, nanos: 1 }), Some(Span { secs: u64::MAX, nanos: 1 }));
    assert_eq!(Span { secs: u64::MAX, nanos: 999_999_999 }.checked_add(Span { secs: 0, nanos: 1 }), None);
    assert_eq!(a.as_secs(), 5);
}

#[test]
fn payload_fields() {
    let mut t = timed_track(false);
    t.url = Some("https://example.com/a".into());
    t.artists = Some(vec!["One".into(), "Two".into(), "Three".into()]);
    let p = build_payload(&t, &config(), Some(Span::from_secs(100)));
    assert_eq!(p.details, "Song");
    assert_eq!(p.details_url, Some("https://example.com/a".to_string()));
    assert_eq!(p.state, Some("One, Two, Three".to_string()));
    assert_eq!(p.large_image, "icon");
    assert_eq!(p.small_image, "mpv");
    assert_eq!(p.small_text, "mpv");
    assert_eq!(p.timestamps, Some(Timestamps { start: 70, end: 250 }));
}

#[test]
fn payload_without_optional_fields() {
    let p = build_payload(&track("Song"), &config(), Some(Span::from_secs(100)));
    assert_eq!(p.details_url, None);
    assert_eq!(p.state, None);
    assert_eq!(p.timestamps, None);
}

#[test]
fn excluded_track_clears() {
    let mut cfg = config();
    cfg.excluded_titles = vec!["Song".into()];
    let r = build_request(&PlaybackState::Playing(track("Song")), &cfg, None);
    assert!(matches!(r, Request::Clear));
    let r = build_request(&PlaybackState::Playing(track("Other")), &cfg, None);
    assert!(matches!(r, Request::Show(_)));
    let r = build_request(&PlaybackState::Stopped, &cfg, None);
    assert!(matches!(r, Request::Clear));
}

#[test]
fn first_source_wins() {
    let both = App::new(config(), vec![Fixed(Some("A")), Fixed(Some("B"))]);
    assert!(both.poll() == PlaybackState::Playing(track("A")));
    let second = App::new(config(), vec![Fixed(None), Fixed(Some("B"))]);
    assert!(second.poll() == PlaybackState::Playing(track("B")));
    let neither = App::new(config(), vec![Fixed(None), Fixed(None)]);
    assert!(neither.poll() == PlaybackState::Stopped);
    let none: App<Fixed> = App::new(config(), vec![]);
    assert!(none.poll() == PlaybackState::Stopped);
}

#[test]
fn select_first_playing() {
    let states = vec![
        PlaybackState::Stopped,
        PlaybackState::Playing(track("B")),
        PlaybackState::Playing(track("C")),
    ];
    assert!(PlaybackState::select(states) == PlaybackState::Playing(track("B")));
    assert!(PlaybackState::select(vec![]) == PlaybackState::Stopped);
}

#[test]
fn observe_reports_only_changes() {
    let mut app = App::new(config(), vec![Fixed(None)]);
    assert!(!app.observe(PlaybackState::Stopped));
    assert!(app.observe(PlaybackState::Playing(track("A"))));
    assert!(!app.observe(PlaybackState::Playing(track("A"))));
    assert!(app.state() == &PlaybackState::Playing(track("A")));
    assert_eq!(app.interval(), 1);
    assert!(app.observe(PlaybackState::Stopped));
    assert_eq!(app.interval(), 10);
}

#[test]
fn four_cycles_send_x_send_y_clear() {
    let source = Scripted {
        readings: RefCell::new(vec![None, Some("X"), Some("X"), Some("Y"), None]),
    };
    let mut app = App::new(config(), vec![source]);
    let mut sent: Vec<String> = vec![];
    for _ in 0..5 {
        let state = app.poll();
        if app.observe(state) {
            match build_request(app.state(), app.config(), None) {
                Request::Show(p) => sent.push(format!("send({})", p.details)),
                Request::Clear => sent.push("clear()".to_string()),
            }
        }
    }
    assert_eq!(sent, vec!["send(X)", "send(Y)", "clear()"]);
}

#[test]
fn session_retry_policy() {
    assert_eq!(next_action(SessionEvent::Connected, 10), SessionAction::Done);
    assert_eq!(next_action(SessionEvent::ConnectFailed, 10), SessionAction::Connect { delay_secs: 10 });
    assert_eq!(next_action(SessionEvent::Updated, 10), SessionAction::Done);
    assert_eq!(next_action(SessionEvent::UpdateFailed, 10), SessionAction::Reconnect { delay_secs: 0 });
    assert_eq!(next_action(SessionEvent::ReconnectFailed, 7), SessionAction::Reconnect { delay_secs: 7 });
    assert_eq!(next_action(SessionEvent::Reconnected, 10), SessionAction::Update);
}
