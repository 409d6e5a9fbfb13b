use cosmic_wallpaper::mpris::{
    choose_player, is_http_url, remote_needs, MetadataUpdate, MprisSession, MprisWatcher,
    ObservedPlayer, PlaybackStatus, PlayerCandidate, RemoteNeeds, SelectionTracker, SessionInput,
    PAUSE_TIMEOUT_MS,
};

fn meta(title: &str, artist: &str, art: Option<&str>, id: &str) -> MetadataUpdate {
    MetadataUpdate::from_parts(
        Some(title.to_string()),
        Some(vec![artist.to_string()]),
        Some("Album".to_string()),
        art.map(|a| a.to_string()),
        Some(id.to_string()),
    )
}

#[test]
fn metadata_defaults_and_joined_artists() {
    let m = MetadataUpdate::from_parts(None, Some(vec!["A".to_string(), "B".to_string()]), None, None, None);
    assert_eq!(m.title, "Unknown");
    assert_eq!(m.artist, "A, B");
    assert_eq!(m.album, "");
    assert_eq!(m.track_id, "");
    assert!(!m.is_uninformative());
    let blank = MetadataUpdate::from_parts(None, None, None, None, None);
    assert!(blank.is_uninformative());
    let spaces = MetadataUpdate::from_parts(Some("  ".to_string()), Some(vec![" ".to_string()]), None, None, None);
    assert!(spaces.is_uninformative());
}

#[test]
fn cache_keys_and_track_identity() {
    let m = meta("Song", "Band", Some("https://x/a.jpg"), "");
    assert_eq!(m.palette_cache_key(), "https://x/a.jpg");
    assert_eq!(m.lyrics_cache_key(), "Band:Album:Song");
    assert_eq!(m.effective_track_id(), "Song-Band");
    let no_art = meta("Song", "Band", None, "/org/mpris/1");
    assert_eq!(no_art.palette_cache_key(), "fallback:Band:Album");
    assert_eq!(no_art.effective_track_id(), "/org/mpris/1");
    assert!(m.same_as(&m.duplicate()));
    assert!(!m.same_as(&no_art));
}

#[test]
fn spotify_ids_in_every_reported_shape() {
    let a = meta("S", "B", None, "spotify:track:4uLU6hMCjMI75M1A2tKUQC");
    assert_eq!(a.spotify_track_id().as_deref(), Some("4uLU6hMCjMI75M1A2tKUQC"));
    let b = meta("S", "B", None, "https://open.spotify.com/track/abc123");
    assert_eq!(b.spotify_track_id().as_deref(), Some("abc123"));
    let c = meta("S", "B", None, "/com/spotify/track/xyz");
    assert_eq!(c.spotify_track_id().as_deref(), Some("xyz"));
    let d = meta("S", "B", None, "/org/mpris/MediaPlayer2/Track/1");
    assert_eq!(d.spotify_track_id(), None);
}

#[test]
fn web_urls_are_recognised_in_any_case() {
    assert!(is_http_url("http://x"));
    assert!(is_http_url("HTTPS://x"));
    assert!(is_http_url("HtTp"));
    assert!(!is_http_url("file:///tmp/a.png"));
    assert!(!is_http_url("/tmp/a.png"));
    assert!(!is_http_url("htt"));
    assert!(meta("S", "B", Some("file:///tmp/a.png"), "").has_local_art());
    assert!(!meta("S", "B", Some("HTTP://x/a.png"), "").has_local_art());
    assert!(!meta("S", "B", None, "").has_local_art());
}

#[test]
fn new_track_is_announced_once_when_visible() {
    let mut s = MprisSession::new(true);
    let out = s.step(SessionInput::Metadata(meta("Song", "Band", None, "1")), false, 0);
    assert!(out.announce.is_none());
    let out = s.step(SessionInput::Idle, true, 10);
    assert_eq!(out.announce.map(|m| m.title), Some("Song".to_string()));
    let out = s.step(SessionInput::Idle, true, 20);
    assert!(out.announce.is_none());
    // Uninformative metadata is ignored.
    let out = s.step(SessionInput::Metadata(MetadataUpdate::from_parts(None, None, None, None, None)), true, 30);
    assert!(out.announce.is_none());
}

#[test]
fn playback_changes_are_announced_and_long_pauses_release() {
    let mut s = MprisSession::new(false);
    let out = s.step(SessionInput::Status(PlaybackStatus::Playing), true, 0);
    assert_eq!(out.playback, Some(true));
    let out = s.step(SessionInput::Status(PlaybackStatus::Playing), true, 5);
    assert_eq!(out.playback, None);
    s.step(SessionInput::Metadata(meta("Song", "Band", None, "1")), true, 6);
    let out = s.step(SessionInput::Status(PlaybackStatus::Paused), true, 1_000);
    assert_eq!(out.playback, Some(false));
    let out = s.step(SessionInput::Idle, true, 1_000 + PAUSE_TIMEOUT_MS - 1);
    assert!(!out.shut_down);
    let out = s.step(SessionInput::Idle, true, 1_000 + PAUSE_TIMEOUT_MS);
    assert!(out.shut_down);
    assert!(s.is_timed_out && s.last_metadata.is_none());
    // Released: silent until a player speaks again.
    let out = s.step(SessionInput::Idle, true, 1_000 + 2 * PAUSE_TIMEOUT_MS);
    assert!(!out.shut_down && out.announce.is_none());
}

#[test]
fn assets_are_forwarded_only_for_the_announced_track() {
    let mut s = MprisSession::new(true);
    s.step(SessionInput::Metadata(meta("Song", "Band", None, "1")), true, 0);
    let out = s.step(SessionInput::Assets(meta("Song", "Band", None, "1")), true, 1);
    assert!(out.forward_assets);
    let out = s.step(SessionInput::Assets(meta("Other", "Band", None, "2")), true, 2);
    assert!(!out.forward_assets);
    let out = s.step(SessionInput::Position, false, 3);
    assert!(!out.forward_position);
    let out = s.step(SessionInput::Position, true, 4);
    assert!(out.forward_position);
}

#[test]
fn turning_lyrics_on_reannounces_the_track() {
    let mut s = MprisSession::new(false);
    s.step(SessionInput::Metadata(meta("Song", "Band", None, "1")), true, 0);
    let out = s.step(SessionInput::ShowLyrics(true), true, 1);
    assert!(out.announce.is_some());
    let out = s.step(SessionInput::ShowLyrics(false), true, 2);
    assert!(out.announce.is_none());
}

fn cand(name: &str, playing: bool) -> PlayerCandidate {
    PlayerCandidate { bus_name: name.to_string(), playing }
}

#[test]
fn watched_player_keeps_the_watch_while_playing() {
    let c = vec![cand("a", true), cand("b", true), cand("c", false)];
    assert_eq!(choose_player(&c, &Some("b".to_string())), Some(1));
    assert_eq!(choose_player(&c, &Some("c".to_string())), Some(0));
    assert_eq!(choose_player(&c, &None), Some(0));
    assert_eq!(choose_player(&vec![cand("c", false)], &None), None);
}

fn observed(name: &str, status: PlaybackStatus, id: Option<&str>) -> ObservedPlayer {
    ObservedPlayer { bus_name: name.to_string(), status, metadata: id.map(|i| meta("S", "B", None, i)) }
}

#[test]
fn selection_forwards_changes_only() {
    let mut t = SelectionTracker::new();
    let out = t.observe(Some(observed("a", PlaybackStatus::Playing, Some("1"))));
    assert!(out.spawn_watcher && out.bump_generation && out.read_position);
    assert!(out.metadata.is_some());
    assert_eq!(out.status, Some(PlaybackStatus::Playing));
    let out = t.observe(Some(observed("a", PlaybackStatus::Playing, Some("1"))));
    assert!(!out.spawn_watcher && out.metadata.is_none() && out.status.is_none());
    let out = t.observe(Some(observed("a", PlaybackStatus::Paused, Some("2"))));
    assert!(out.metadata.is_some());
    assert_eq!(out.status, Some(PlaybackStatus::Paused));
    assert!(!out.read_position);
    let out = t.observe(None);
    assert_eq!(out.status, Some(PlaybackStatus::Stopped));
    assert!(out.bump_generation);
    let out = t.observe(None);
    assert_eq!(out.status, None);
}

#[test]
fn art_fallback_search_and_urls() {
    assert_eq!(MprisWatcher::fallback_search_term("Band", "Record", "Song"), "Band Record");
    assert_eq!(MprisWatcher::fallback_search_term("Band", "", "Song"), "Band Song");
    assert_eq!(MprisWatcher::fallback_search_term("Band", "Unknown", "Song"), "Band Song");
    assert_eq!(
        MprisWatcher::high_res_artwork_url("https://is1.example/x/100x100bb.jpg"),
        "https://is1.example/x/600x600bb.jpg"
    );
    assert_eq!(MprisWatcher::high_res_artwork_url("https://a/b.jpg"), "https://a/b.jpg");
}

#[test]
fn art_paths_must_be_absolute_without_parent_steps() {
    assert!(MprisWatcher::is_plain_absolute(b"/tmp/art.png"));
    assert!(MprisWatcher::is_plain_absolute(b"/tmp/..art.png"));
    assert!(MprisWatcher::is_plain_absolute(b"/tmp/\xff\xfe.png"));
    assert!(!MprisWatcher::is_plain_absolute(b"art.png"));
    assert!(!MprisWatcher::is_plain_absolute(b"./art.png"));
    assert!(!MprisWatcher::is_plain_absolute(b"/tmp/../etc/passwd"));
    assert!(!MprisWatcher::is_plain_absolute(b"/run/user/../../var/log"));
    assert!(!MprisWatcher::is_plain_absolute(b"/tmp/.."));
    assert!(!MprisWatcher::is_plain_absolute(b""));
}

#[test]
fn canonical_art_paths_must_lie_under_an_allowed_root() {
    let roots = vec![b"/tmp".to_vec(), b"/home/u/Music".to_vec()];
    assert!(MprisWatcher::is_within_roots(b"/tmp/art.png", &roots));
    assert!(MprisWatcher::is_within_roots(b"/tmp", &roots));
    assert!(MprisWatcher::is_within_roots(b"/home/u/Music/a/b.jpg", &roots));
    assert!(MprisWatcher::is_within_roots(b"/tmp/\xff.png", &roots));
    assert!(!MprisWatcher::is_within_roots(b"/tmpfoo/art.png", &roots));
    assert!(!MprisWatcher::is_within_roots(b"/home/u/.ssh/id_rsa", &roots));
    assert!(!MprisWatcher::is_within_roots(b"/home/u/document.pdf", &roots));
    assert!(!MprisWatcher::is_within_roots(b"/tmp/a", &vec![]));
    let dirs = MprisWatcher::art_home_subdirs();
    assert_eq!(dirs.len(), 6);
    assert_eq!(dirs[0], "Music");
    assert!(dirs.contains(&".mozilla/firefox/firefox-mpris"));
}

#[test]
fn fast_path_leaves_only_missing_assets_to_fetch() {
    assert_eq!(
        remote_needs(true, false, true, false, None),
        RemoteNeeds { art: true, lyrics: true, video: true }
    );
    assert_eq!(
        remote_needs(false, false, true, true, Some(true)),
        RemoteNeeds { art: false, lyrics: false, video: false }
    );
    assert_eq!(
        remote_needs(true, true, false, false, Some(false)),
        RemoteNeeds { art: true, lyrics: false, video: false }
    );
}
