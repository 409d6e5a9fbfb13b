# cosmic-wallpaper (verified core)

The decision logic of a Wayland live-wallpaper engine, written in Verus and
proved against its contracts.

## Layout

- `src/` — the verified library:
  - `net_guard` — the SSRF address guard for every untrusted URL.
  - `web` — URL parsing (through the `url` crate), request targets, stream
    URL checks, where album art is read from, and the response size limit.
  - `mpris` — track metadata and its cache keys, the watcher's state
    machine, player selection, and the album-art path checks.
  - `album_art` — decoding art under size limits and shrinking it (through
    the `image` crate).
  - `canvas_cache` — the Spotify canvas cache (an `lru::LruCache`).
  - `weather` — WMO codes, the polling schedule, and weather effects.
  - `video` — frame sizing, colour matrix and pixel format choice, the
    hardware fallback, frame pacing, the frame-buffer pool and row copies.
  - `wayland` — per-monitor surface book-keeping.
  - `renderer` — the glyph atlas, the shaped-text cache, per-frame layer and
    shader decisions, redraw pausing, lyric tracking, the album-art grace
    period, surface configuration,
    waveform bands and texture row padding.
  - `text`, `utils`, `frame_copy`, `config`, `state` — shared helpers.
- `tests/` — scenario tests of the library.
- `app/` — the command-line program around it: name resolution, HTTP,
  file access and the weather loop.
