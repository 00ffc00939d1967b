use vstd::prelude::*;

verus! {

/// Frame rate the wallpaper should run at, as a pure function of the host
/// conditions: paused or covered by a fullscreen window stops drawing, a
/// fully occluded desktop keeps a heartbeat of one frame per second,
/// battery power halves the normal rate.
pub open spec fn spec_target_fps(paused: bool, battery: bool, fullscreen: bool, occluded: bool) -> u32 {
    if paused || fullscreen {
        0
    } else if occluded {
        1
    } else if battery {
        15
    } else {
        30
    }
}

/// Frames per second for the current host conditions.
pub fn target_fps(paused: bool, battery: bool, fullscreen: bool, occluded: bool) -> (fps: u32)
    ensures
        fps == spec_target_fps(paused, battery, fullscreen, occluded),
{
    if paused || fullscreen {
        0
    } else if occluded {
        1
    } else if battery {
        15
    } else {
        30
    }
}

/// Each of the four host conditions can only lower the frame rate: turning
/// any one of them on never makes the wallpaper draw faster.
pub proof fn lemma_conditions_never_speed_up(paused: bool, battery: bool, fullscreen: bool, occluded: bool)
    ensures
        spec_target_fps(true, battery, fullscreen, occluded) <= spec_target_fps(paused, battery, fullscreen, occluded),
        spec_target_fps(paused, true, fullscreen, occluded) <= spec_target_fps(paused, battery, fullscreen, occluded),
        spec_target_fps(paused, battery, true, occluded) <= spec_target_fps(paused, battery, fullscreen, occluded),
        spec_target_fps(paused, battery, fullscreen, true) <= spec_target_fps(paused, battery, fullscreen, occluded),
{
}

/// The wallpaper only ever runs at one of four rates, and it stops drawing
/// exactly when it is paused or a fullscreen window covers it.
pub proof fn lemma_rates(paused: bool, battery: bool, fullscreen: bool, occluded: bool)
    ensures
        ({
            let fps = spec_target_fps(paused, battery, fullscreen, occluded);
            fps == 0 || fps == 1 || fps == 15 || fps == 30
        }),
        (spec_target_fps(paused, battery, fullscreen, occluded) == 0) <==> (paused || fullscreen),
{
}


/// Sleep between checks while nothing is drawn, in nanoseconds.
pub const PAUSED_SLEEP_NS: u64 = 200_000_000;

/// Longest single wait before the next frame, in nanoseconds, so that the
/// host stays responsive.
pub const WAIT_SLICE_NS: u64 = 16_000_000;

/// What the host loop does next.
#[derive(Debug, Clone, Copy, PartialEq, Eq, Structural)]
pub enum Pace {
    /// Sleep this many nanoseconds, then check again.
    Sleep(u64),
    /// Draw a frame now.
    Draw,
}

/// Time between frames at `fps`, in nanoseconds.
pub open spec fn frame_interval_ns(fps: u32) -> int {
    1_000_000_000int / (fps as int)
}

/// The pacing decision for a frame rate and the time since the last frame.
pub open spec fn spec_pace(fps: u32, since_last_frame_ns: u64) -> Pace {
    if fps == 0 {
        Pace::Sleep(PAUSED_SLEEP_NS)
    } else if (since_last_frame_ns as int) < frame_interval_ns(fps) {
        let wait = frame_interval_ns(fps) - since_last_frame_ns;
        Pace::Sleep(if wait < WAIT_SLICE_NS { wait as u64 } else { WAIT_SLICE_NS })
    } else {
        Pace::Draw
    }
}

/// Decides whether to draw now or how long to sleep: a stopped wallpaper
/// polls slowly, a frame that is not due yet waits (in short slices), a due
/// frame is drawn.
pub fn pace_frame(fps: u32, since_last_frame_ns: u64) -> (pace: Pace)
    ensures
        pace == spec_pace(fps, since_last_frame_ns),
{
    if fps == 0 {
        return Pace::Sleep(PAUSED_SLEEP_NS);
    }
    let interval: u64 = 1_000_000_000u64 / (fps as u64);
    if since_last_frame_ns < interval {
        let wait = interval - since_last_frame_ns;
        Pace::Sleep(if wait < WAIT_SLICE_NS { wait } else { WAIT_SLICE_NS })
    } else {
        Pace::Draw
    }
}

/// A running wallpaper never sleeps longer than one wait slice before
/// checking again, never sleeps zero, and draws as soon as a frame is due.
pub proof fn lemma_pacing_responsive(fps: u32, since_last_frame_ns: u64)
    requires
        fps > 0,
    ensures
        spec_pace(fps, since_last_frame_ns) matches Pace::Sleep(ns) ==> 0 < ns <= WAIT_SLICE_NS,
        (since_last_frame_ns as int) >= frame_interval_ns(fps) ==> spec_pace(fps, since_last_frame_ns) == Pace::Draw,
{
}
/// Milliseconds between two checks of the host's health (monitors, power,
/// fullscreen and occlusion).
pub const HEALTH_INTERVAL_MS: u64 = 500;

/// Milliseconds between two weather refreshes.
pub const WEATHER_INTERVAL_MS: u64 = 1_200_000;

/// The periodic work the host loop owes at this turn.
#[derive(Debug, Clone, Copy, PartialEq, Eq, Structural)]
pub struct Chores {
    /// Check the host's health again.
    pub health: bool,
    /// Ask the weather worker for fresh weather.
    pub weather: bool,
}

/// Which periodic work is due, from the milliseconds since the last health
/// check and since the last weather refresh: each is due once its interval
/// has passed.
pub fn due_chores(since_health_ms: u64, since_weather_ms: u64) -> (c: Chores)
    ensures
        c.health == (since_health_ms >= HEALTH_INTERVAL_MS),
        c.weather == (since_weather_ms >= WEATHER_INTERVAL_MS),
{
    Chores { health: since_health_ms >= HEALTH_INTERVAL_MS, weather: since_weather_ms >= WEATHER_INTERVAL_MS }
}

} // verus!
