use track_presence::config::Config;
use track_presence::track::Track;

fn base_config() -> Config {
    Config {
        poll_playing: 1,
        poll_idle: 10,
        client_id: String::new(),
        known_players: vec![],
        excluded_players: vec![],
        excluded_titles: vec![],
        excluded_artists: vec![],
        excluded_urls: vec![],
    }
}

fn base_track() -> Track {
    Track {
        player: String::new(),
        title: String::new(),
        url: None,
        artists: None,
        position: None,
        length: None,
        paused: false,
    }
}

#[test]
fn player_image_known_player() {
    let mut cfg = base_config();
    cfg.known_players = vec!["mozilla firefox".into(), "Mpv".into()];
    assert_eq!(cfg.get_player_image("Mozilla Firefox"), "mozillafirefox");
    assert_eq!(cfg.get_player_image("mpv"), "mpv");
}

#[test]
fn player_image_unknown_player_falls_back() {
    let mut cfg = base_config();
    cfg.known_players = vec!["mozilla firefox".into(), "Mpv".into()];
    assert_eq!(cfg.get_player_image("Some Random Player"), "icon");
}

#[test]
fn excluded_by_player() {
    let mut cfg = base_config();
    let mut track = base_track();
    cfg.excluded_players = vec!["vlc".into(), "Spotify".into()];

    track.player = "spotify".into();
    assert!(cfg.excluded(&track));

    track.player = "mpv".into();
    assert!(!cfg.excluded(&track));
}

#[test]
fn excluded_by_title() {
    let mut cfg = base_config();
    let mut track = base_track();
    cfg.excluded_titles = vec!["Bad Song".into()];

    track.title = "Bad Song".into();
    assert!(cfg.excluded(&track));

    track.title = "bad song".into();
    assert!(!cfg.excluded(&track));
}

#[test]
fn excluded_by_artist() {
    let mut cfg = base_config();
    let mut track = base_track();
    cfg.excluded_artists = vec!["Annoying Artist".into()];

    track.artists = Some(vec!["Nice Artist".into(), "Annoying Artist".into()]);
    assert!(cfg.excluded(&track));

    track.artists = Some(vec!["Nice Artist".into(), "annoying artist".into()]);
    assert!(!cfg.excluded(&track));
}

#[test]
fn excluded_by_url() {
    let mut cfg = base_config();
    let mut track = base_track();
    cfg.excluded_urls = vec!["www.youtube.com".into(), "example.com".into()];

    track.url = Some("https://EXAMPLE.com/watch?v=123".into());
    assert!(cfg.excluded(&track));

    track.url = Some("https://soundcloud.com/".into());
    assert!(!cfg.excluded(&track));
}

#[test]
fn missing_optional_fields_do_not_exclude() {
    let cfg = base_config();
    let track = base_track();

    assert!(!cfg.excluded(&track));
}

#[test]
fn excluded_player_ignores_spaces_and_case() {
    let mut cfg = base_config();
    let mut track = base_track();
    cfg.excluded_players = vec!["VLC media player".into()];

    track.player = "vlcMediaPlayer".into();
    assert!(cfg.excluded(&track));

    track.player = "vlc media".into();
    assert!(!cfg.excluded(&track));
}

#[test]
fn excluded_url_fragment_in_upper_case() {
    let mut cfg = base_config();
    let mut track = base_track();
    cfg.excluded_urls = vec!["YouTube.com/watch".into()];

    track.url = Some("https://www.youtube.com/watch?v=1".into());
    assert!(cfg.excluded(&track));

    track.url = None;
    assert!(!cfg.excluded(&track));
}

#[test]
fn player_image_known_entry_with_spaces() {
    let mut cfg = base_config();
    cfg.known_players = vec!["VLC media player".into()];
    assert_eq!(cfg.get_player_image("VLC Media Player"), "vlcmediaplayer");
    assert_eq!(cfg.get_player_image("vlc"), "icon");
}

#[test]
fn player_image_with_no_known_players() {
    let cfg = base_config();
    assert_eq!(cfg.get_player_image(""), "icon");
    assert_eq!(cfg.get_player_image("mpv"), "icon");
}
