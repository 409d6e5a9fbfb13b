//! Weather: mapping Open-Meteo WMO codes to conditions, the polling schedule
//! of the weather watcher, and the integer side of the weather effects.

use vstd::prelude::*;

verus! {

/// Sky condition shown by the wallpaper.
#[derive(Clone, Copy, Debug, PartialEq, Eq, Structural)]
pub enum WeatherCondition {
    Clear,
    PartlyCloudy,
    Cloudy,
    Rain,
    Snow,
    Thunderstorm,
    Fog,
}

/// The WMO weather-code table as the watcher reads it; unknown codes count
/// as partly cloudy.
pub open spec fn spec_wmo_condition(code: u32) -> WeatherCondition {
    if code == 0 {
        WeatherCondition::Clear
    } else if 1 <= code <= 2 {
        WeatherCondition::PartlyCloudy
    } else if code == 3 {
        WeatherCondition::Cloudy
    } else if code == 45 || code == 48 {
        WeatherCondition::Fog
    } else if (51 <= code <= 67) || (80 <= code <= 82) {
        WeatherCondition::Rain
    } else if (71 <= code <= 77) || (85 <= code <= 86) {
        WeatherCondition::Snow
    } else if 95 <= code <= 99 {
        WeatherCondition::Thunderstorm
    } else {
        WeatherCondition::PartlyCloudy
    }
}

/// Polls Open-Meteo for the current weather; the decisions of its loop live
/// in [`WeatherSchedule`], the network and channel work in the application.
pub struct WeatherWatcher;

impl WeatherWatcher {
    /// Maps a WMO weather code (as reported by Open-Meteo) to a condition.
    pub fn wmo_code_to_condition(code: u32) -> (r: WeatherCondition)
        ensures
            r == spec_wmo_condition(code),
    {
        match code {
            0 => WeatherCondition::Clear,
            1..=2 => WeatherCondition::PartlyCloudy,
            3 => WeatherCondition::Cloudy,
            45 | 48 => WeatherCondition::Fog,
            51..=67 | 80..=82 => WeatherCondition::Rain,
            71..=77 | 85..=86 => WeatherCondition::Snow,
            95..=99 => WeatherCondition::Thunderstorm,
            _ => WeatherCondition::PartlyCloudy,
        }
    }
}

/// One day in milliseconds: the watcher's sleep while disabled, and how far
/// in the past its clock starts so that the first poll is due at once.
pub const DAY_MS: u64 = 86_400_000;

/// After a failed fetch the next attempt is this far away.
pub const RETRY_MS: u64 = 60_000;

/// The poll interval for a configured number of minutes: at least one
/// minute.
pub open spec fn spec_poll_interval_ms(minutes: u64) -> int {
    (if minutes < 1 { 1 } else { minutes as int }) * 60_000
}

/// Returns the poll interval in milliseconds for `minutes`, floored at one
/// minute.
pub fn poll_interval_ms(minutes: u64) -> (r: u128)
    requires
        minutes <= u64::MAX / 60,
    ensures
        r == spec_poll_interval_ms(minutes),
{
    let m: u64 = if minutes < 1 { 1 } else { minutes };
    (m as u128) * 60_000
}

/// The state the weather loop carries between iterations, with times in
/// milliseconds of a monotonic clock.
pub struct WeatherSchedule {
    /// Whether weather was enabled in the configuration seen last.
    pub last_enabled: bool,
    /// When the last fetch happened (or counts as having happened).
    pub last_fetch_ms: i128,
    /// The poll interval of the configuration seen last, in milliseconds.
    pub poll_ms: u128,
}

/// Time since `last`, never negative (as `Instant::elapsed` saturates).
pub open spec fn spec_elapsed(now: int, last: int) -> int {
    if now >= last { now - last } else { 0 }
}

/// Whether a fetch happens this iteration: weather is enabled and either it
/// was just switched on or the location moved, or the interval has passed.
pub open spec fn spec_fetch_due(
    last_enabled: bool,
    last_fetch: int,
    enabled: bool,
    location_changed: bool,
    poll: int,
    now: int,
) -> bool {
    let forced = (enabled && !last_enabled) || location_changed;
    enabled && (forced || spec_elapsed(now, last_fetch) >= poll)
}

impl WeatherSchedule {
    /// The bounds every schedule keeps, so that its clock arithmetic stays
    /// in range.
    pub open spec fn wf(&self) -> bool {
        &&& -0x1_0000_0000_0000_0000_0000_0000i128 <= self.last_fetch_ms <= u64::MAX
        &&& RETRY_MS <= self.poll_ms <= 0x1_0000_0000_0000_0000_0000u128
    }

    /// The schedule at start-up: the clock is set a day back so that an
    /// enabled watcher fetches on its first iteration.
    pub fn new(enabled: bool, now_ms: u64) -> (r: WeatherSchedule)
        ensures
            r.wf(),
            r.last_enabled == enabled,
            r.last_fetch_ms == now_ms - DAY_MS,
            r.poll_ms == 60_000,
    {
        WeatherSchedule {
            last_enabled: enabled,
            last_fetch_ms: now_ms as i128 - DAY_MS as i128,
            poll_ms: 60_000,
        }
    }

    /// Starts one iteration of the loop with the current configuration and
    /// says whether to fetch now. The configuration becomes the one the
    /// next iteration compares against.
    pub fn begin_cycle(
        &mut self,
        enabled: bool,
        location_changed: bool,
        poll_minutes: u64,
        now_ms: u64,
    ) -> (fetch: bool)
        requires
            old(self).wf(),
            poll_minutes <= u64::MAX / 60,
        ensures
            final(self).wf(),
            fetch == spec_fetch_due(
                old(self).last_enabled,
                old(self).last_fetch_ms as int,
                enabled,
                location_changed,
                spec_poll_interval_ms(poll_minutes),
                now_ms as int,
            ),
            final(self).last_enabled == enabled,
            final(self).last_fetch_ms == old(self).last_fetch_ms,
            final(self).poll_ms == spec_poll_interval_ms(poll_minutes),
    {
        let poll = poll_interval_ms(poll_minutes);
        let forced = (enabled && !self.last_enabled) || location_changed;
        let now = now_ms as i128;
        let elapsed: u128 = if now >= self.last_fetch_ms {
            (now - self.last_fetch_ms) as u128
        } else {
            0
        };
        self.last_enabled = enabled;
        self.poll_ms = poll;
        enabled && (forced || elapsed >= poll)
    }

    /// Records the outcome of a fetch made at `now_ms`: a success restarts
    /// the interval, a failure is set up to be retried a minute later.
    pub fn finish_fetch(&mut self, succeeded: bool, now_ms: u64)
        requires
            old(self).wf(),
        ensures
            final(self).wf(),
            final(self).last_enabled == old(self).last_enabled,
            final(self).poll_ms == old(self).poll_ms,
            final(self).last_fetch_ms == if succeeded {
                now_ms as int
            } else {
                now_ms - old(self).poll_ms + RETRY_MS
            },
    {
        if succeeded {
            self.last_fetch_ms = now_ms as i128;
        } else {
            self.last_fetch_ms = now_ms as i128 - self.poll_ms as i128 + RETRY_MS as i128;
        }
    }

    /// How long the loop sleeps before its next iteration (unless the
    /// configuration changes first): until the interval is up when enabled,
    /// a day when disabled.
    pub fn sleep_ms(&self, now_ms: u64) -> (r: u128)
        requires
            self.wf(),
        ensures
            r == if self.last_enabled {
                let e = spec_elapsed(now_ms as int, self.last_fetch_ms as int);
                if e < self.poll_ms { self.poll_ms - e } else { 0 }
            } else {
                DAY_MS as int
            },
    {
        if self.last_enabled {
            let now = now_ms as i128;
            let elapsed: u128 = if now >= self.last_fetch_ms {
                (now - self.last_fetch_ms) as u128
            } else {
                0
            };
            if elapsed < self.poll_ms {
                self.poll_ms - elapsed
            } else {
                0
            }
        } else {
            DAY_MS as u128
        }
    }
}

/// Law: a disabled watcher never fetches, and sleeps a whole day.
pub proof fn disabled_never_fetches(s: WeatherSchedule, location_changed: bool, poll: int, now: int)
    ensures
        !spec_fetch_due(s.last_enabled, s.last_fetch_ms as int, false, location_changed, poll, now),
{
}

/// Law: after a failed fetch at `t`, with the configuration unchanged, the
/// next fetch is due exactly one minute later, not sooner.
pub proof fn failure_retries_after_a_minute(poll: int, t: int, later: int)
    requires
        poll >= RETRY_MS,
        later >= t,
    ensures
        spec_fetch_due(true, t - poll + RETRY_MS, true, false, poll, later) <==> later >= t
            + RETRY_MS,
{
}

/// Law: after a successful fetch at `t`, with the configuration unchanged,
/// the next fetch is due when the poll interval has passed, not sooner.
pub proof fn success_waits_one_interval(poll: int, t: int, later: int)
    requires
        later >= t,
    ensures
        spec_fetch_due(true, t, true, false, poll, later) <==> later >= t + poll,
{
}

/// Law: turning weather on (or moving the location) fetches at once.
pub proof fn enabling_forces_a_fetch(last_fetch: int, poll: int, now: int, moved: bool)
    ensures
        spec_fetch_due(false, last_fetch, true, moved, poll, now),
        spec_fetch_due(true, last_fetch, true, true, poll, now),
{
}


/// How weather particles move; the application turns this into the
/// shader's gravity and wind.
#[derive(Clone, Copy, Debug, PartialEq, Eq, Structural)]
pub enum WeatherMotion {
    /// Rain and thunderstorms: fast, nearly vertical.
    Pouring,
    /// Snow: slow, drifting sideways.
    Drifting,
    /// Cloud and fog: the gentle default.
    Hazy,
    /// Clear skies: the gentle default as well.
    Calm,
}

/// The weather-effect settings the renderer derives from the configuration
/// and the last weather report.
#[derive(Clone, Copy, Debug, PartialEq, Eq, Structural)]
pub struct WeatherEffects {
    /// Whether particles are drawn at all.
    pub active: bool,
    /// How many particles are simulated.
    pub particles: u32,
    /// The sky/particle style index the shaders read (0 clear, 1 overcast,
    /// 2 rain, 3 snow).
    pub weather_type: u32,
    /// `Some` when the particle motion is (re)set; `None` leaves the
    /// previous motion in place.
    pub motion: Option<WeatherMotion>,
}

/// Whether a condition has falling particles.
pub open spec fn has_precipitation(c: WeatherCondition) -> bool {
    c == WeatherCondition::Rain || c == WeatherCondition::Snow || c == WeatherCondition::Thunderstorm
}

/// The sky style index of a condition.
pub open spec fn spec_sky_type(c: WeatherCondition) -> u32 {
    match c {
        WeatherCondition::Clear | WeatherCondition::PartlyCloudy => 0,
        WeatherCondition::Cloudy | WeatherCondition::Fog => 1,
        WeatherCondition::Rain | WeatherCondition::Thunderstorm => 2,
        WeatherCondition::Snow => 3,
    }
}

/// The particle count of a condition while effects are active.
pub open spec fn spec_particle_count(c: WeatherCondition) -> u32 {
    match c {
        WeatherCondition::Rain => 800,
        WeatherCondition::Thunderstorm => 1500,
        WeatherCondition::Snow => 2500,
        _ => 0,
    }
}

/// The particle motion of a condition while effects are active.
pub open spec fn spec_motion(c: WeatherCondition) -> WeatherMotion {
    match c {
        WeatherCondition::Rain | WeatherCondition::Thunderstorm => WeatherMotion::Pouring,
        WeatherCondition::Snow => WeatherMotion::Drifting,
        WeatherCondition::Cloudy | WeatherCondition::Fog => WeatherMotion::Hazy,
        _ => WeatherMotion::Calm,
    }
}

/// Effects are drawn when weather is enabled, not hidden, and the current
/// report has precipitation; otherwise no particles, but the sky still
/// follows the report.
pub fn weather_effects(enabled: bool, hide_effects: bool, report: Option<WeatherCondition>) -> (r:
    WeatherEffects)
    ensures
        r.active == (enabled && !hide_effects && (report matches Some(c) && has_precipitation(c))),
        r.active ==> r.particles == spec_particle_count(report->0) && r.particles > 0
            && r.weather_type == spec_sky_type(report->0) && r.motion == Some(
            spec_motion(report->0),
        ),
        !r.active ==> r.particles == 0 && r.motion.is_none() && r.weather_type == match report {
            Some(c) => spec_sky_type(c),
            None => 0u32,
        },
{
    let active = enabled && !hide_effects && match report {
        Some(c) => matches!(c, WeatherCondition::Rain | WeatherCondition::Snow | WeatherCondition::Thunderstorm),
        None => false,
    };
    let sky = match report {
        Some(c) => match c {
            WeatherCondition::Clear | WeatherCondition::PartlyCloudy => 0,
            WeatherCondition::Cloudy | WeatherCondition::Fog => 1,
            WeatherCondition::Rain | WeatherCondition::Thunderstorm => 2,
            WeatherCondition::Snow => 3,
        },
        None => 0,
    };
    if active {
        let c = report.unwrap();
        let particles: u32 = match c {
            WeatherCondition::Rain => 800,
            WeatherCondition::Thunderstorm => 1500,
            WeatherCondition::Snow => 2500,
            _ => 0,
        };
        let (motion, weather_type) = match c {
            WeatherCondition::Rain | WeatherCondition::Thunderstorm => (WeatherMotion::Pouring, 2),
            WeatherCondition::Snow => (WeatherMotion::Drifting, 3),
            WeatherCondition::Cloudy | WeatherCondition::Fog => (WeatherMotion::Hazy, 1),
            _ => (WeatherMotion::Calm, 0),
        };
        WeatherEffects { active: true, particles, weather_type, motion: Some(motion) }
    } else {
        WeatherEffects { active: false, particles: 0, weather_type: sky, motion: None }
    }
}

/// The condition's name as the weather line shows it.
pub open spec fn spec_condition_label(c: WeatherCondition) -> Seq<char> {
    match c {
        WeatherCondition::Clear => "Clear"@,
        WeatherCondition::PartlyCloudy => "Partly Cloudy"@,
        WeatherCondition::Cloudy => "Cloudy"@,
        WeatherCondition::Rain => "Rain"@,
        WeatherCondition::Snow => "Snow"@,
        WeatherCondition::Thunderstorm => "Thunderstorm"@,
        WeatherCondition::Fog => "Fog"@,
    }
}

/// Returns the condition's display name.
pub fn condition_label(c: WeatherCondition) -> (r: &'static str)
    ensures
        r@ == spec_condition_label(c),
{
    match c {
        WeatherCondition::Clear => "Clear",
        WeatherCondition::PartlyCloudy => "Partly Cloudy",
        WeatherCondition::Cloudy => "Cloudy",
        WeatherCondition::Rain => "Rain",
        WeatherCondition::Snow => "Snow",
        WeatherCondition::Thunderstorm => "Thunderstorm",
        WeatherCondition::Fog => "Fog",
    }
}

/// The WMO code groups: 0 is clear, 1-2 partly cloudy, 3 cloudy, 45 and 48
/// fog; drizzle, rain and freezing rain (51-67) and rain showers (80-82) are
/// rain; snow (71-77) and snow showers (85-86) are snow; 95-99 are
/// thunderstorms; every other code reads as partly cloudy.
pub proof fn wmo_code_groups(code: u32)
    ensures
        code == 0 ==> spec_wmo_condition(code) == WeatherCondition::Clear,
        1 <= code <= 2 ==> spec_wmo_condition(code) == WeatherCondition::PartlyCloudy,
        code == 3 ==> spec_wmo_condition(code) == WeatherCondition::Cloudy,
        code == 45 || code == 48 ==> spec_wmo_condition(code) == WeatherCondition::Fog,
        (51 <= code <= 67 || 80 <= code <= 82) ==> spec_wmo_condition(code)
            == WeatherCondition::Rain,
        (71 <= code <= 77 || 85 <= code <= 86) ==> spec_wmo_condition(code)
            == WeatherCondition::Snow,
        95 <= code <= 99 ==> spec_wmo_condition(code) == WeatherCondition::Thunderstorm,
        !(code <= 3 || code == 45 || code == 48 || 51 <= code <= 67 || 71 <= code <= 77 || 80
            <= code <= 82 || 85 <= code <= 86 || 95 <= code <= 99) ==> spec_wmo_condition(code)
            == WeatherCondition::PartlyCloudy,
{
}

} // verus!
