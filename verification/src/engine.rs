//! What the control panel is told about the background run, and which
//! settings may change while it runs.
use vstd::prelude::*;

use crate::config::RunMode;

verus! {

/// Whether the background run is going, and in which mode.
#[derive(Debug, Clone, Copy, PartialEq, Eq, Structural)]
pub struct RuntimeStatus {
    pub running: bool,
    pub mode: Option<RunMode>,
}

/// The settings that a run is started with and that cannot change while it
/// runs: the mode, the listening port, the canvas size overrides and vsync.
#[derive(Debug, Clone, Copy, PartialEq, Eq, Structural)]
pub struct LaunchSettings {
    pub mode: RunMode,
    pub port: u16,
    pub width: Option<u32>,
    pub height: Option<u32>,
    pub vsync: bool,
}

/// Whether new settings may be taken while a run goes: only where they keep
/// every launch setting.
pub fn live_update_allowed(current: &LaunchSettings, next: &LaunchSettings) -> (r: bool)
    ensures
        r == (*current == *next),
{
    current.mode == next.mode && current.port == next.port && current.width == next.width
        && current.height == next.height && current.vsync == next.vsync
}

/// The status of a run handle: not running where there is none.
pub fn runtime_status(handle: Option<(bool, RunMode)>) -> (r: RuntimeStatus)
    ensures
        r.running == (handle matches Some((running, _)) && running),
        r.mode == (match handle {
            Some((_, mode)) => Some(mode),
            None => None,
        }),
{
    match handle {
        Some((running, mode)) => RuntimeStatus { running, mode: Some(mode) },
        None => RuntimeStatus { running: false, mode: None },
    }
}

} // verus!
