//! Media-player (MPRIS) logic: the metadata of a track and the keys derived
//! from it, the watcher's choice of player, and the state machine of the
//! watcher's main loop.

use vstd::prelude::*;
use crate::text::{
    chars_of, contains_str, is_blank, join_strings, join_with, last_field, replace_all,
    replace_str, seq_contains, split_last_field, str_is_blank,
};

verus! {

broadcast use vstd::string::group_string_axioms;

/// The track metadata the watcher works with.
pub struct MetadataUpdate {
    pub title: String,
    pub artist: String,
    pub album: String,
    pub art_url: Option<String>,
    pub track_id: String,
}

/// [`MetadataUpdate`] as mathematical text.
pub struct MetadataView {
    pub title: Seq<char>,
    pub artist: Seq<char>,
    pub album: Seq<char>,
    pub art_url: Option<Seq<char>>,
    pub track_id: Seq<char>,
}

/// The view of an optional string.
pub open spec fn opt_view(s: Option<String>) -> Option<Seq<char>> {
    match s {
        Some(t) => Some(t@),
        None => None,
    }
}

impl View for MetadataUpdate {
    type V = MetadataView;

    open spec fn view(&self) -> MetadataView {
        MetadataView {
            title: self.title@,
            artist: self.artist@,
            album: self.album@,
            art_url: opt_view(self.art_url),
            track_id: self.track_id@,
        }
    }
}

/// The view of optional metadata.
pub open spec fn opt_meta_view(m: Option<MetadataUpdate>) -> Option<MetadataView> {
    match m {
        Some(t) => Some(t@),
        None => None,
    }
}

fn clone_opt_string(s: &Option<String>) -> (r: Option<String>)
    ensures
        opt_view(r) == opt_view(*s),
{
    match s {
        Some(t) => Some(t.clone()),
        None => None,
    }
}

fn eq_opt_string(a: &Option<String>, b: &Option<String>) -> (r: bool)
    ensures
        r == (opt_view(*a) == opt_view(*b)),
{
    match (a, b) {
        (Some(x), Some(y)) => x.eq(y),
        (None, None) => true,
        _ => false,
    }
}

/// URL schemes are case-insensitive: a URL counts as a web URL when its
/// first four characters spell `http` in any case.
pub open spec fn spec_is_http_url(url: Seq<char>) -> bool {
    &&& url.len() >= 4
    &&& (url[0] == 'h' || url[0] == 'H')
    &&& (url[1] == 't' || url[1] == 'T')
    &&& (url[2] == 't' || url[2] == 'T')
    &&& (url[3] == 'p' || url[3] == 'P')
}

/// Whether `url` names a web resource (`http`/`https` in any case) rather
/// than a local file.
pub fn is_http_url(url: &str) -> (r: bool)
    ensures
        r == spec_is_http_url(url@),
{
    let cs = chars_of(url);
    cs.len() >= 4 && (cs[0] == 'h' || cs[0] == 'H') && (cs[1] == 't' || cs[1] == 'T') && (cs[2]
        == 't' || cs[2] == 'T') && (cs[3] == 'p' || cs[3] == 'P')
}

/// Metadata that says nothing: no usable title (missing, or blank) and a
/// blank artist.
pub open spec fn spec_is_uninformative(m: MetadataView) -> bool {
    (m.title == "Unknown"@ || is_blank(m.title)) && is_blank(m.artist)
}

/// Key of the palette cache.
pub open spec fn spec_palette_cache_key(m: MetadataView) -> Seq<char> {
    match m.art_url {
        Some(u) => u,
        None => "fallback:"@ + m.artist + ":"@ + m.album,
    }
}

/// Key of the lyrics cache.
pub open spec fn spec_lyrics_cache_key(m: MetadataView) -> Seq<char> {
    m.artist + ":"@ + m.album + ":"@ + m.title
}

/// Identity used for change detection.
pub open spec fn spec_effective_track_id(m: MetadataView) -> Seq<char> {
    if m.track_id.len() == 0 {
        m.title + "-"@ + m.artist
    } else {
        m.track_id
    }
}

/// The bare Spotify track id in the shapes players report `mpris:trackid`
/// in: `spotify:track:<id>`, `.../open.spotify.com/track/<id>` or
/// `/com/spotify/track/<id>`.
pub open spec fn spec_spotify_track_id(m: MetadataView) -> Option<Seq<char>> {
    if seq_contains(m.track_id, "spotify:track:"@) {
        Some(last_field(m.track_id, ':'))
    } else if seq_contains(m.track_id, "open.spotify.com/track/"@) || seq_contains(
        m.track_id,
        "/com/spotify/track/"@,
    ) {
        Some(last_field(m.track_id, '/'))
    } else {
        None
    }
}

/// The art URL points at local disk (a `file://` URL or a raw path).
pub open spec fn spec_has_local_art(m: MetadataView) -> bool {
    match m.art_url {
        Some(u) => !spec_is_http_url(u),
        None => false,
    }
}

impl MetadataUpdate {
    /// Builds the metadata from what a player reports: a missing title is
    /// `Unknown`, several artists are joined with `, `, and missing album,
    /// artists or track id are empty.
    pub fn from_parts(
        title: Option<String>,
        artists: Option<Vec<String>>,
        album: Option<String>,
        art_url: Option<String>,
        track_id: Option<String>,
    ) -> (r: MetadataUpdate)
        ensures
            r.title@ == match title {
                Some(t) => t@,
                None => "Unknown"@,
            },
            r.artist@ == match artists {
                Some(a) => join_with(a@.map_values(|p: String| p@), ", "@),
                None => Seq::<char>::empty(),
            },
            r.album@ == match album {
                Some(a) => a@,
                None => Seq::<char>::empty(),
            },
            opt_view(r.art_url) == opt_view(art_url),
            r.track_id@ == match track_id {
                Some(t) => t@,
                None => Seq::<char>::empty(),
            },
    {
        let title = match title {
            Some(t) => t,
            None => "Unknown".to_owned(),
        };
        let artist = match artists {
            Some(a) => join_strings(&a, ", "),
            None => String::new(),
        };
        let album = match album {
            Some(a) => a,
            None => String::new(),
        };
        let track_id = match track_id {
            Some(t) => t,
            None => String::new(),
        };
        MetadataUpdate { title, artist, album, art_url, track_id }
    }

    /// A copy with the same text.
    pub fn duplicate(&self) -> (r: MetadataUpdate)
        ensures
            r@ == self@,
    {
        MetadataUpdate {
            title: self.title.clone(),
            artist: self.artist.clone(),
            album: self.album.clone(),
            art_url: clone_opt_string(&self.art_url),
            track_id: self.track_id.clone(),
        }
    }

    /// Whether both describe the same track with the same details.
    pub fn same_as(&self, other: &MetadataUpdate) -> (r: bool)
        ensures
            r == (self@ == other@),
    {
        self.title == other.title && self.artist == other.artist && self.album == other.album
            && eq_opt_string(&self.art_url, &other.art_url) && self.track_id == other.track_id
    }

    /// Whether the metadata is too empty to announce.
    pub fn is_uninformative(&self) -> (r: bool)
        ensures
            r == spec_is_uninformative(self@),
    {
        let unknown = "Unknown".to_owned();
        proof {
            reveal_strlit("Unknown");
        }
        (self.title == unknown || str_is_blank(self.title.as_str())) && str_is_blank(
            self.artist.as_str(),
        )
    }

    /// Key for the palette cache: the art URL, which identifies the art the
    /// palette is extracted from, or `fallback:<artist>:<album>` without one.
    pub fn palette_cache_key(&self) -> (r: String)
        ensures
            r@ == spec_palette_cache_key(self@),
    {
        match &self.art_url {
            Some(u) => u.clone(),
            None => {
                let mut k = "fallback:".to_owned();
                k.append(self.artist.as_str());
                k.append(":");
                k.append(self.album.as_str());
                k
            },
        }
    }

    /// Key for the lyrics cache: `<artist>:<album>:<title>`.
    pub fn lyrics_cache_key(&self) -> (r: String)
        ensures
            r@ == spec_lyrics_cache_key(self@),
    {
        let mut k = self.artist.clone();
        k.append(":");
        k.append(self.album.as_str());
        k.append(":");
        k.append(self.title.as_str());
        k
    }

    /// Identity used for change detection: the player-reported track id, or
    /// `<title>-<artist>` for players that don't set one.
    pub fn effective_track_id(&self) -> (r: String)
        ensures
            r@ == spec_effective_track_id(self@),
    {
        if self.track_id.as_str().is_empty() {
            let mut k = self.title.clone();
            k.append("-");
            k.append(self.artist.as_str());
            k
        } else {
            self.track_id.clone()
        }
    }

    /// Extracts the bare Spotify track id (used for canvas lookup and
    /// caching) from the shapes players report the track id in.
    pub fn spotify_track_id(&self) -> (r: Option<String>)
        ensures
            opt_view(r) == spec_spotify_track_id(self@),
    {
        let id = self.track_id.as_str();
        if contains_str(id, "spotify:track:") {
            Some(split_last_field(id, ':'))
        } else if contains_str(id, "open.spotify.com/track/") || contains_str(
            id,
            "/com/spotify/track/",
        ) {
            Some(split_last_field(id, '/'))
        } else {
            None
        }
    }

    /// True when the art URL points at local disk, so the art can be loaded
    /// without touching the network.
    pub fn has_local_art(&self) -> (r: bool)
        ensures
            r == spec_has_local_art(self@),
    {
        match &self.art_url {
            Some(u) => !is_http_url(u.as_str()),
            None => false,
        }
    }
}


/// A player's playback status.
#[derive(Clone, Copy, Debug, PartialEq, Eq, Structural)]
pub enum PlaybackStatus {
    Playing,
    Paused,
    Stopped,
}

/// What arrived in one iteration of the watcher's main loop.
pub enum SessionInput {
    /// Nothing (the wait timed out, or the visibility flag changed).
    Idle,
    /// The lyrics toggle now reads this value.
    ShowLyrics(bool),
    /// A player reported track metadata.
    Metadata(MetadataUpdate),
    /// A player reported its playback status.
    Status(PlaybackStatus),
    /// A player reported its playback position.
    Position,
    /// A background fetch delivered assets for this track.
    Assets(MetadataUpdate),
}

/// What the main loop must do after one iteration.
pub struct SessionOutput {
    /// `Some(true)`: announce that playback resumed; `Some(false)`: that it
    /// paused or stopped.
    pub playback: Option<bool>,
    /// Forward the reported position to the renderer.
    pub forward_position: bool,
    /// Forward the delivered assets to the renderer (they belong to the
    /// track currently shown).
    pub forward_assets: bool,
    /// Give the source up: cancel the canvas video and tell the renderer
    /// the player went away.
    pub shut_down: bool,
    /// Announce this track (and fetch its assets).
    pub announce: Option<MetadataUpdate>,
}

/// How long a paused player keeps the wallpaper before it is released.
pub const PAUSE_TIMEOUT_MS: u64 = 15_000;

/// The state of the watcher's main loop, with times in milliseconds of a
/// monotonic clock.
pub struct MprisSession {
    pub is_playing: bool,
    pub is_timed_out: bool,
    pub paused_since_ms: Option<u64>,
    /// The newest informative metadata.
    pub last_metadata: Option<MetadataUpdate>,
    /// The metadata last announced to the renderer.
    pub last_processed: Option<MetadataUpdate>,
    pub show_lyrics: bool,
}

/// [`MprisSession`] as mathematical values.
pub struct SessionView {
    pub is_playing: bool,
    pub is_timed_out: bool,
    pub paused_since_ms: Option<u64>,
    pub last_metadata: Option<MetadataView>,
    pub last_processed: Option<MetadataView>,
    pub show_lyrics: bool,
}

impl View for MprisSession {
    type V = SessionView;

    open spec fn view(&self) -> SessionView {
        SessionView {
            is_playing: self.is_playing,
            is_timed_out: self.is_timed_out,
            paused_since_ms: self.paused_since_ms,
            last_metadata: opt_meta_view(self.last_metadata),
            last_processed: opt_meta_view(self.last_processed),
            show_lyrics: self.show_lyrics,
        }
    }
}

/// [`SessionInput`] as mathematical values.
pub enum InputView {
    Idle,
    ShowLyrics(bool),
    Metadata(MetadataView),
    Status(PlaybackStatus),
    Position,
    Assets(MetadataView),
}

impl View for SessionInput {
    type V = InputView;

    open spec fn view(&self) -> InputView {
        match self {
            SessionInput::Idle => InputView::Idle,
            SessionInput::ShowLyrics(b) => InputView::ShowLyrics(*b),
            SessionInput::Metadata(m) => InputView::Metadata(m@),
            SessionInput::Status(st) => InputView::Status(*st),
            SessionInput::Position => InputView::Position,
            SessionInput::Assets(m) => InputView::Assets(m@),
        }
    }
}

/// The state after handling the input itself (first phase of a step).
pub open spec fn after_input(s: SessionView, input: InputView, now: u64) -> SessionView {
    match input {
        InputView::Idle => s,
        InputView::ShowLyrics(v) => if v != s.show_lyrics {
            SessionView {
                show_lyrics: v,
                last_processed: if v { None } else { s.last_processed },
                ..s
            }
        } else {
            s
        },
        InputView::Metadata(m) => SessionView {
            is_timed_out: false,
            last_metadata: if spec_is_uninformative(m) { s.last_metadata } else { Some(m) },
            ..s
        },
        InputView::Status(st) => {
            let playing = st == PlaybackStatus::Playing;
            if playing != s.is_playing {
                SessionView {
                    is_timed_out: false,
                    is_playing: playing,
                    paused_since_ms: if playing { None } else { Some(now) },
                    ..s
                }
            } else if !playing && s.paused_since_ms.is_none() {
                SessionView { is_timed_out: false, paused_since_ms: Some(now), ..s }
            } else {
                SessionView { is_timed_out: false, ..s }
            }
        },
        InputView::Position => SessionView { is_timed_out: false, ..s },
        InputView::Assets(_) => s,
    }
}

/// Whether a paused player has now been silent long enough to release.
pub open spec fn times_out(s: SessionView, now: u64) -> bool {
    !s.is_playing && !s.is_timed_out && match s.paused_since_ms {
        Some(t) => now >= t && now - t >= PAUSE_TIMEOUT_MS,
        None => false,
    }
}

/// The state after the pause-timeout check (second phase of a step).
pub open spec fn after_timeout(s: SessionView, now: u64) -> SessionView {
    if times_out(s, now) {
        SessionView {
            is_timed_out: true,
            paused_since_ms: None,
            last_metadata: None,
            last_processed: None,
            ..s
        }
    } else {
        s
    }
}

/// Whether a track is announced: the wallpaper is visible, the source is
/// not released, and the newest metadata differs from what was announced.
pub open spec fn announces(s: SessionView, visible: bool) -> bool {
    visible && !s.is_timed_out && s.last_metadata.is_some() && s.last_metadata != s.last_processed
}

/// The state after the announcement (last phase of a step).
pub open spec fn after_announce(s: SessionView, visible: bool) -> SessionView {
    if announces(s, visible) {
        SessionView { last_processed: s.last_metadata, ..s }
    } else {
        s
    }
}

/// Whether assets delivered by a background fetch go on to the renderer:
/// only while the source is held, and only for the track last announced.
pub open spec fn forwards_assets(s: SessionView, input: InputView) -> bool {
    match input {
        InputView::Assets(m) => !s.is_timed_out && s.last_processed == Some(m),
        _ => false,
    }
}

/// The state after one full step.
pub open spec fn spec_step(s: SessionView, input: InputView, visible: bool, now: u64) -> SessionView {
    after_announce(after_timeout(after_input(s, input, now), now), visible)
}

impl MprisSession {
    /// The loop's state at start-up: nothing playing, nothing announced.
    pub fn new(show_lyrics: bool) -> (r: MprisSession)
        ensures
            !r.is_playing && !r.is_timed_out && r.paused_since_ms.is_none(),
            r.last_metadata.is_none() && r.last_processed.is_none(),
            r.show_lyrics == show_lyrics,
    {
        MprisSession {
            is_playing: false,
            is_timed_out: false,
            paused_since_ms: None,
            last_metadata: None,
            last_processed: None,
            show_lyrics,
        }
    }

    fn same_opt(a: &Option<MetadataUpdate>, b: &Option<MetadataUpdate>) -> (r: bool)
        ensures
            r == (opt_meta_view(*a) == opt_meta_view(*b)),
    {
        match (a, b) {
            (Some(x), Some(y)) => x.same_as(y),
            (None, None) => true,
            _ => false,
        }
    }

    /// Runs one iteration of the main loop's decisions: handles the input,
    /// releases a player paused for too long, and announces a new track
    /// when the wallpaper is visible.
    pub fn step(&mut self, input: SessionInput, visible: bool, now_ms: u64) -> (out: SessionOutput)
        ensures
            final(self)@ == spec_step(old(self)@, input@, visible, now_ms),
            out.playback == match input@ {
                InputView::Status(st) => if (st == PlaybackStatus::Playing) != old(self).is_playing {
                    Some(st == PlaybackStatus::Playing)
                } else {
                    None
                },
                _ => None,
            },
            out.forward_position == (input@ is Position && visible),
            out.forward_assets == forwards_assets(old(self)@, input@),
            out.shut_down == times_out(after_input(old(self)@, input@, now_ms), now_ms),
            opt_meta_view(out.announce) == if announces(
                after_timeout(after_input(old(self)@, input@, now_ms), now_ms),
                visible,
            ) {
                after_timeout(after_input(old(self)@, input@, now_ms), now_ms).last_metadata
            } else {
                None
            },
    {
        let mut out = SessionOutput {
            playback: None,
            forward_position: false,
            forward_assets: false,
            shut_down: false,
            announce: None,
        };
        match input {
            SessionInput::Idle => {},
            SessionInput::ShowLyrics(v) => {
                if v != self.show_lyrics {
                    self.show_lyrics = v;
                    if v {
                        self.last_processed = None;
                    }
                }
            },
            SessionInput::Metadata(m) => {
                self.is_timed_out = false;
                if !m.is_uninformative() {
                    self.last_metadata = Some(m);
                }
            },
            SessionInput::Status(st) => {
                self.is_timed_out = false;
                let playing = st == PlaybackStatus::Playing;
                if playing != self.is_playing {
                    self.is_playing = playing;
                    if playing {
                        self.paused_since_ms = None;
                        out.playback = Some(true);
                    } else {
                        self.paused_since_ms = Some(now_ms);
                        out.playback = Some(false);
                    }
                } else if !playing && self.paused_since_ms.is_none() {
                    self.paused_since_ms = Some(now_ms);
                }
            },
            SessionInput::Position => {
                self.is_timed_out = false;
                out.forward_position = visible;
            },
            SessionInput::Assets(m) => {
                out.forward_assets = !self.is_timed_out && match &self.last_processed {
                    Some(p) => p.same_as(&m),
                    None => false,
                };
            },
        }
        if !self.is_playing && !self.is_timed_out {
            if let Some(t) = self.paused_since_ms {
                if now_ms >= t && now_ms - t >= PAUSE_TIMEOUT_MS {
                    self.is_timed_out = true;
                    self.paused_since_ms = None;
                    self.last_metadata = None;
                    self.last_processed = None;
                    out.shut_down = true;
                }
            }
        }
        if visible && !self.is_timed_out && !Self::same_opt(&self.last_metadata, &self.last_processed) {
            if let Some(meta) = &self.last_metadata {
                let announced = meta.duplicate();
                self.last_processed = Some(meta.duplicate());
                out.announce = Some(announced);
            }
        }
        out
    }
}

/// Law: assets reach the renderer exactly when they are for the track last
/// announced and the source is still held; and a step that delivers assets
/// moves the session just as a step in which nothing arrives.
pub proof fn assets_forwarded_only_for_current_track(
    s: SessionView,
    m: MetadataView,
    visible: bool,
    now: u64,
)
    ensures
        forwards_assets(s, InputView::Assets(m)) <==> (!s.is_timed_out && s.last_processed == Some(
            m,
        )),
        spec_step(s, InputView::Assets(m), visible, now) == spec_step(
            s,
            InputView::Idle,
            visible,
            now,
        ),
{
}

/// Law: assets for any other track than the one announced, or arriving
/// after the source was released, are never forwarded.
pub proof fn stale_assets_are_dropped(s: SessionView, m: MetadataView)
    requires
        s.is_timed_out || s.last_processed != Some(m),
    ensures
        !forwards_assets(s, InputView::Assets(m)),
{
}

/// Law: once a track has been announced, an iteration in which nothing
/// arrives does not announce anything again.
pub proof fn announcement_is_not_repeated(s: SessionView, visible: bool, now: u64)
    requires
        s.last_metadata == s.last_processed,
    ensures
        !announces(after_timeout(after_input(s, InputView::Idle, now), now), visible),
        spec_step(s, InputView::Idle, visible, now).last_metadata == spec_step(
            s,
            InputView::Idle,
            visible,
            now,
        ).last_processed,
{
}

/// Law: a released source stays released, and silent, until a player
/// reports something (metadata, status or position).
pub proof fn released_source_stays_silent(s: SessionView, input: InputView, visible: bool, now: u64)
    requires
        s.is_timed_out,
        input is Idle || input is ShowLyrics || input is Assets,
    ensures
        spec_step(s, input, visible, now).is_timed_out,
        !announces(after_timeout(after_input(s, input, now), now), visible),
        !times_out(after_input(s, input, now), now),
{
}

/// Law: a player paused for the full timeout is released on the first
/// iteration at or after the deadline, and the release forgets the track.
pub proof fn long_pause_releases_the_source(s: SessionView, t: u64, now: u64, visible: bool)
    requires
        !s.is_playing,
        !s.is_timed_out,
        s.paused_since_ms == Some(t),
        now >= t + PAUSE_TIMEOUT_MS,
    ensures
        times_out(after_input(s, InputView::Idle, now), now),
        spec_step(s, InputView::Idle, visible, now).is_timed_out,
        spec_step(s, InputView::Idle, visible, now).last_metadata.is_none(),
        spec_step(s, InputView::Idle, visible, now).last_processed.is_none(),
{
}

/// Law: metadata that says nothing never replaces the current track.
pub proof fn uninformative_metadata_is_ignored(s: SessionView, m: MetadataView, now: u64)
    requires
        spec_is_uninformative(m),
    ensures
        after_input(s, InputView::Metadata(m), now).last_metadata == s.last_metadata,
{
}


/// Which assets of a new track must still be fetched in the background,
/// after the fast path has used what the caches and the local disk had.
#[derive(Clone, Copy, Debug, PartialEq, Eq, Structural)]
pub struct RemoteNeeds {
    pub art: bool,
    pub lyrics: bool,
    pub video: bool,
}

impl RemoteNeeds {
    /// Whether a background fetch is needed at all.
    pub fn any(&self) -> (r: bool)
        ensures
            r == (self.art || self.lyrics || self.video),
    {
        self.art || self.lyrics || self.video
    }
}

/// The fast path's verdict. Lyrics are fetched only when shown and not
/// cached; a canvas video only for a Spotify track whose lookup is not
/// cached; art unless a local art file was read and decoded
/// (`local_art`: `None` when the track has no local art, otherwise whether
/// loading it succeeded).
pub fn remote_needs(
    fetch_lyrics: bool,
    lyrics_cached: bool,
    spotify_track: bool,
    video_cached: bool,
    local_art: Option<bool>,
) -> (r: RemoteNeeds)
    ensures
        r.lyrics == (fetch_lyrics && !lyrics_cached),
        r.video == (spotify_track && !video_cached),
        r.art == (local_art != Some(true)),
{
    let art = match local_art {
        Some(loaded) => !loaded,
        None => true,
    };
    RemoteNeeds { art, lyrics: fetch_lyrics && !lyrics_cached, video: spotify_track && !video_cached }
}

/// A player found on the bus, as the selection thread sees it.
pub struct PlayerCandidate {
    pub bus_name: String,
    pub playing: bool,
}

/// Candidate `j` is the watched player, and it is playing.
pub open spec fn plays_watched(c: Seq<PlayerCandidate>, watched: Option<String>, j: int) -> bool {
    match watched {
        Some(w) => c[j].playing && c[j].bus_name@ == w@,
        None => false,
    }
}

/// Picks the player to watch. Sticking with the watched player while it
/// still plays keeps applications that expose several interfaces for the
/// same playback from stealing the watch from each other.
pub fn choose_player(candidates: &Vec<PlayerCandidate>, watched: &Option<String>) -> (r: Option<usize>)
    ensures
        match r {
            Some(i) => i < candidates@.len() && candidates@[i as int].playing && if plays_watched(
                candidates@,
                *watched,
                i as int,
            ) {
                forall|j: int| 0 <= j < i ==> !plays_watched(candidates@, *watched, j)
            } else {
                (forall|j: int|
                    0 <= j < candidates@.len() ==> !plays_watched(candidates@, *watched, j))
                    && forall|j: int| 0 <= j < i ==> !candidates@[j].playing
            },
            None => forall|j: int| 0 <= j < candidates@.len() ==> !candidates@[j].playing,
        },
{
    if let Some(w) = watched {
        let mut i: usize = 0;
        while i < candidates.len()
            invariant
                i <= candidates@.len(),
                watched == Some(*w),
                forall|j: int| 0 <= j < i ==> !plays_watched(candidates@, *watched, j),
            decreases candidates@.len() - i,
        {
            if candidates[i].playing && candidates[i].bus_name == *w {
                return Some(i);
            }
            i = i + 1;
        }
    }
    let mut i: usize = 0;
    while i < candidates.len()
        invariant
            i <= candidates@.len(),
            forall|j: int| 0 <= j < i ==> !candidates@[j].playing,
            forall|j: int| 0 <= j < candidates@.len() ==> !plays_watched(candidates@, *watched, j),
        decreases candidates@.len() - i,
    {
        if candidates[i].playing {
            return Some(i);
        }
        i = i + 1;
    }
    None
}


/// The player chosen in one scan of the selection thread: its bus name, its
/// status, and its metadata when it could be read.
pub struct ObservedPlayer {
    pub bus_name: String,
    pub status: PlaybackStatus,
    pub metadata: Option<MetadataUpdate>,
}

/// What the selection thread must do after one scan.
pub struct SelectionActions {
    /// Forward this metadata to the main loop.
    pub metadata: Option<MetadataUpdate>,
    /// Forward this status to the main loop (after the metadata).
    pub status: Option<PlaybackStatus>,
    /// Invalidate every running event watcher (bump the generation).
    pub bump_generation: bool,
    /// Start an event watcher for the newly chosen player.
    pub spawn_watcher: bool,
    /// Read and forward the player's position.
    pub read_position: bool,
}

/// What the selection thread remembers between scans.
pub struct SelectionTracker {
    pub last_status: PlaybackStatus,
    pub last_track_id: String,
    pub watched_bus: Option<String>,
}

impl SelectionTracker {
    /// Nothing watched yet; the last status counts as stopped.
    pub fn new() -> (r: SelectionTracker)
        ensures
            r.last_status == PlaybackStatus::Stopped,
            r.last_track_id@ == Seq::<char>::empty(),
            r.watched_bus.is_none(),
    {
        SelectionTracker {
            last_status: PlaybackStatus::Stopped,
            last_track_id: String::new(),
            watched_bus: None,
        }
    }

    /// Handles one scan. A newly chosen player has its current metadata and
    /// status announced and gets an event watcher of its own; for the
    /// watched player only changes are forwarded (a fallback for players
    /// that never signal); when no player is left, stopped is announced
    /// once.
    pub fn observe(&mut self, player: Option<ObservedPlayer>) -> (out: SelectionActions)
        ensures
            match player {
                Some(p) => {
                    let switched = opt_view(old(self).watched_bus) != Some(p.bus_name@);
                    &&& opt_view(final(self).watched_bus) == Some(p.bus_name@)
                    &&& final(self).last_status == p.status
                    &&& out.bump_generation == switched
                    &&& out.spawn_watcher == switched
                    &&& out.read_position == (p.status == PlaybackStatus::Playing)
                    &&& final(self).last_track_id@ == match p.metadata {
                        Some(m) => spec_effective_track_id(m@),
                        None => old(self).last_track_id@,
                    }
                    &&& opt_meta_view(out.metadata) == match p.metadata {
                        Some(m) => if switched || spec_effective_track_id(m@)
                            != old(self).last_track_id@ {
                            Some(m@)
                        } else {
                            None
                        },
                        None => None,
                    }
                    &&& out.status == if switched || p.status != old(self).last_status {
                        Some(p.status)
                    } else {
                        None
                    }
                },
                None => {
                    let announce = old(self).last_status != PlaybackStatus::Stopped
                        || old(self).watched_bus.is_some();
                    &&& out.metadata.is_none()
                    &&& !out.spawn_watcher
                    &&& !out.read_position
                    &&& out.bump_generation == announce
                    &&& out.status == if announce {
                        Some(PlaybackStatus::Stopped)
                    } else {
                        None
                    }
                    &&& final(self).last_status == if announce {
                        PlaybackStatus::Stopped
                    } else {
                        old(self).last_status
                    }
                    &&& final(self).watched_bus.is_none()
                    &&& final(self).last_track_id@ == old(self).last_track_id@
                },
            },
    {
        let mut out = SelectionActions {
            metadata: None,
            status: None,
            bump_generation: false,
            spawn_watcher: false,
            read_position: false,
        };
        match player {
            Some(p) => {
                let switched = match &self.watched_bus {
                    Some(w) => !w.eq(&p.bus_name),
                    None => true,
                };
                if switched {
                    if let Some(m) = p.metadata {
                        self.last_track_id = m.effective_track_id();
                        out.metadata = Some(m);
                    }
                    out.status = Some(p.status);
                    self.last_status = p.status;
                    self.watched_bus = Some(p.bus_name);
                    out.bump_generation = true;
                    out.spawn_watcher = true;
                } else {
                    if let Some(m) = p.metadata {
                        let id = m.effective_track_id();
                        if !id.eq(&self.last_track_id) {
                            self.last_track_id = id;
                            out.metadata = Some(m);
                        }
                    }
                    if p.status != self.last_status {
                        self.last_status = p.status;
                        out.status = Some(p.status);
                    }
                }
                out.read_position = p.status == PlaybackStatus::Playing;
            },
            None => {
                if self.last_status != PlaybackStatus::Stopped || self.watched_bus.is_some() {
                    out.status = Some(PlaybackStatus::Stopped);
                    self.last_status = PlaybackStatus::Stopped;
                    self.watched_bus = None;
                    out.bump_generation = true;
                }
            },
        }
        out
    }
}


/// Watches MPRIS players; its decisions live here, its D-Bus, network and
/// file work in the application.
pub struct MprisWatcher;

/// The iTunes search term for art of a track: artist and album, or artist
/// and title when the album is missing or unknown.
pub open spec fn spec_fallback_search_term(artist: Seq<char>, album: Seq<char>, title: Seq<char>) -> Seq<char> {
    if album.len() == 0 || album == "Unknown"@ {
        artist + " "@ + title
    } else {
        artist + " "@ + album
    }
}

/// The path separator, as a byte.
pub const SLASH: u8 = 0x2f;

/// A dot, as a byte.
pub const DOT: u8 = 0x2e;

/// A `..` component starts at `i` in `path` (paths are byte strings, as
/// they are on Unix).
pub open spec fn parent_component_at(path: Seq<u8>, i: int) -> bool {
    0 <= i && i + 2 <= path.len() && path[i] == DOT && path[i + 1] == DOT && (i == 0 || path[i
        - 1] == SLASH) && (i + 2 == path.len() || path[i + 2] == SLASH)
}

/// `path` is absolute and has no `..` component.
pub open spec fn spec_is_plain_absolute(path: Seq<u8>) -> bool {
    &&& path.len() > 0
    &&& path[0] == SLASH
    &&& !exists|i: int| #[trigger] parent_component_at(path, i)
}

/// `Path::starts_with` for canonical paths (absolute, without `.`/`..`
/// components, repeated or trailing separators): `path` is `root` or lies
/// below it, component-wise; an empty root is a prefix of everything.
pub open spec fn spec_path_within(path: Seq<u8>, root: Seq<u8>) -> bool {
    ||| root.len() == 0
    ||| path == root
    ||| (root.len() < path.len() && path.take(root.len() as int) == root && (root.last() == SLASH
        || path[root.len() as int] == SLASH))
}

/// The directories under `$HOME` that players keep album art in: media
/// libraries, art caches, and Firefox's exported tab artwork (stock, XDG
/// and Flatpak layouts) - deliberately not all of the home directory.
pub open spec fn spec_art_home_subdirs() -> Seq<Seq<char>> {
    seq![
        "Music"@,
        ".cache"@,
        ".local/share"@,
        ".mozilla/firefox/firefox-mpris"@,
        ".config/mozilla/firefox/firefox-mpris"@,
        ".var/app/org.mozilla.firefox/.mozilla/firefox/firefox-mpris"@,
    ]
}

impl MprisWatcher {
    /// The search term for the iTunes art fallback.
    pub fn fallback_search_term(artist: &str, album: &str, title: &str) -> (r: String)
        ensures
            r@ == spec_fallback_search_term(artist@, album@, title@),
    {
        let unknown = "Unknown".to_owned();
        proof {
            reveal_strlit("Unknown");
        }
        let album_unknown = album.is_empty() || album.to_owned() == unknown;
        let mut r = artist.to_owned();
        r.append(" ");
        if album_unknown {
            r.append(title);
        } else {
            r.append(album);
        }
        r
    }

    /// iTunes hands out 100px artwork URLs; the same URL with `600x600bb`
    /// in place of `100x100bb` names the 600px version.
    pub fn high_res_artwork_url(url: &str) -> (r: String)
        ensures
            r@ == replace_all(url@, "100x100bb"@, "600x600bb"@),
    {
        proof {
            reveal_strlit("100x100bb");
        }
        replace_str(url, "100x100bb", "600x600bb")
    }

    /// Whether a path given by a player may be resolved at all: it must be
    /// absolute and must not climb with `..`.
    pub fn is_plain_absolute(path: &[u8]) -> (r: bool)
        ensures
            r == spec_is_plain_absolute(path@),
    {
        if path.len() == 0 || path[0] != SLASH {
            return false;
        }
        let n = path.len();
        let mut i: usize = 0;
        while i < n
            invariant
                n == path@.len(),
                forall|k: int| 0 <= k < i ==> !#[trigger] parent_component_at(path@, k),
            decreases n - i,
        {
            if i + 1 < n && path[i] == DOT && path[i + 1] == DOT && (i == 0 || path[i - 1] == SLASH)
                && (i + 2 == n || path[i + 2] == SLASH) {
                proof {
                    assert(parent_component_at(path@, i as int));
                }
                return false;
            }
            i = i + 1;
        }
        proof {
            assert forall|k: int| !#[trigger] parent_component_at(path@, k) by {
                if 0 <= k && k < i {
                }
            }
        }
        true
    }

    /// Whether a canonical path is one of the allowed roots or lies below
    /// one of them.
    pub fn is_within_roots(path: &[u8], roots: &Vec<Vec<u8>>) -> (r: bool)
        ensures
            r == exists|j: int| 0 <= j < roots@.len() && spec_path_within(path@, #[trigger] roots@[j]@),
    {
        let mut j: usize = 0;
        while j < roots.len()
            invariant
                j <= roots@.len(),
                forall|k: int| 0 <= k < j ==> !spec_path_within(path@, #[trigger] roots@[k]@),
            decreases roots@.len() - j,
        {
            let root = &roots[j];
            let within = if root.len() == 0 {
                true
            } else if root.len() == path.len() {
                Self::same_prefix(path, root.as_slice(), root.len())
            } else if root.len() < path.len() && root.len() > 0 {
                Self::same_prefix(path, root.as_slice(), root.len()) && (root[root.len() - 1] == SLASH
                    || path[root.len()] == SLASH)
            } else {
                false
            };
            proof {
                if root@.len() == 0 {
                } else if root@.len() == path@.len() {
                    assert(path@.take(path@.len() as int) =~= path@);
                } else if root@.len() < path@.len() && root@.len() > 0 {
                    assert(path@ != root@);
                } else {
                    assert(path@ != root@);
                }
            }
            if within {
                return true;
            }
            j = j + 1;
        }
        false
    }

    fn same_prefix(a: &[u8], b: &[u8], n: usize) -> (r: bool)
        requires
            n <= a@.len(),
            n == b@.len(),
        ensures
            r == (a@.take(n as int) == b@),
    {
        let mut k: usize = 0;
        while k < n
            invariant
                n <= a@.len(),
                n == b@.len(),
                k <= n,
                forall|i: int| 0 <= i < k ==> a@[i] == b@[i],
            decreases n - k,
        {
            if a[k] != b[k] {
                proof {
                    assert(a@.take(n as int)[k as int] != b@[k as int]);
                }
                return false;
            }
            k = k + 1;
        }
        proof {
            assert(a@.take(n as int) =~= b@);
        }
        true
    }

    /// The allowed album-art directories below `$HOME`, relative to it.
    pub fn art_home_subdirs() -> (r: Vec<&'static str>)
        ensures
            r@.len() == spec_art_home_subdirs().len(),
            forall|i: int| 0 <= i < r@.len() ==> #[trigger] r@[i]@ == spec_art_home_subdirs()[i],
    {
        let r = vec![
            "Music",
            ".cache",
            ".local/share",
            ".mozilla/firefox/firefox-mpris",
            ".config/mozilla/firefox/firefox-mpris",
            ".var/app/org.mozilla.firefox/.mozilla/firefox/firefox-mpris",
        ];
        r
    }
}

/// A player first reported paused (a pause arriving while no pause timer
/// runs, whether it was playing or already paused when the watcher started)
/// starts the timer at that moment, and the source is released on the first
/// idle step at or after `PAUSE_TIMEOUT_MS` later.
pub proof fn paused_player_is_released_after_the_timeout(
    s: SessionView,
    visible: bool,
    later_visible: bool,
    now: u64,
    later: u64,
)
    requires
        s.paused_since_ms.is_none(),
        later >= now + PAUSE_TIMEOUT_MS,
    ensures
        after_input(s, InputView::Status(PlaybackStatus::Paused), now).paused_since_ms == Some(now),
        spec_step(s, InputView::Status(PlaybackStatus::Paused), visible, now).paused_since_ms == Some(
            now,
        ),
        !spec_step(s, InputView::Status(PlaybackStatus::Paused), visible, now).is_timed_out,
        times_out(
            after_input(
                spec_step(s, InputView::Status(PlaybackStatus::Paused), visible, now),
                InputView::Idle,
                later,
            ),
            later,
        ),
        spec_step(
            spec_step(s, InputView::Status(PlaybackStatus::Paused), visible, now),
            InputView::Idle,
            later_visible,
            later,
        ).is_timed_out,
{
}

} // verus!
