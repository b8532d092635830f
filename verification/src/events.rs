//! Status events for the control panel.
use vstd::prelude::*;

use crate::clock::wall_clock_millis;

verus! {

#[derive(Debug, Clone, Copy, PartialEq, Eq, Structural)]
pub enum UiLevel {
    Info,
    Warn,
    Error,
}

#[derive(Debug, Clone, Copy, PartialEq, Eq, Structural)]
pub enum UiKind {
    Runtime,
    Overlay,
    Gsi,
    Demo,
    Effect,
    Config,
}

/// A status event: when it happened, in whole milliseconds since the Unix
/// epoch (`None` where the wall clock stood before it), how serious it is,
/// what it is about, and its message.
#[derive(Debug, Clone)]
pub struct UiEvent {
    pub at_ms: Option<u64>,
    pub level: UiLevel,
    pub kind: UiKind,
    pub message: String,
}

/// A status event as the control panel receives it.
#[derive(Debug, Clone)]
pub struct UiEventDto {
    pub timestamp_ms: u64,
    pub level: &'static str,
    pub kind: &'static str,
    pub message: String,
}

pub open spec fn level_name(l: UiLevel) -> Seq<char> {
    match l {
        UiLevel::Info => "info"@,
        UiLevel::Warn => "warn"@,
        UiLevel::Error => "error"@,
    }
}

pub open spec fn kind_name(k: UiKind) -> Seq<char> {
    match k {
        UiKind::Runtime => "runtime"@,
        UiKind::Overlay => "overlay"@,
        UiKind::Gsi => "gsi"@,
        UiKind::Demo => "demo"@,
        UiKind::Effect => "effect"@,
        UiKind::Config => "config"@,
    }
}

impl UiLevel {
    pub fn name(self) -> (r: &'static str)
        ensures
            r@ == level_name(self),
    {
        match self {
            UiLevel::Info => "info",
            UiLevel::Warn => "warn",
            UiLevel::Error => "error",
        }
    }
}

impl UiKind {
    pub fn name(self) -> (r: &'static str)
        ensures
            r@ == kind_name(self),
    {
        match self {
            UiKind::Runtime => "runtime",
            UiKind::Overlay => "overlay",
            UiKind::Gsi => "gsi",
            UiKind::Demo => "demo",
            UiKind::Effect => "effect",
            UiKind::Config => "config",
        }
    }
}

impl UiEvent {
    /// An informational event about `kind`, stamped now.
    pub fn info(kind: UiKind, message: String) -> (r: UiEvent)
        ensures
            r.level == UiLevel::Info,
            r.kind == kind,
            r.message@ == message@,
    {
        UiEvent::new(UiLevel::Info, kind, message)
    }

    /// A warning about `kind`, stamped now.
    pub fn warn(kind: UiKind, message: String) -> (r: UiEvent)
        ensures
            r.level == UiLevel::Warn,
            r.kind == kind,
            r.message@ == message@,
    {
        UiEvent::new(UiLevel::Warn, kind, message)
    }

    /// An error about `kind`, stamped now.
    pub fn error(kind: UiKind, message: String) -> (r: UiEvent)
        ensures
            r.level == UiLevel::Error,
            r.kind == kind,
            r.message@ == message@,
    {
        UiEvent::new(UiLevel::Error, kind, message)
    }

    fn new(level: UiLevel, kind: UiKind, message: String) -> (r: UiEvent)
        ensures
            r.level == level,
            r.kind == kind,
            r.message@ == message@,
    {
        UiEvent { at_ms: wall_clock_millis(), level, kind, message }
    }
}

/// The milliseconds since the Unix epoch that a time is sent as: the count
/// where the time is not before the epoch, else 0.
pub fn timestamp_or_zero(ms: Option<u64>) -> (r: u64)
    ensures
        r == match ms {
            Some(m) => m,
            None => 0,
        },
{
    match ms {
        Some(m) => m,
        None => 0,
    }
}

impl UiEventDto {
    /// The event as the control panel receives it: its time in milliseconds
    /// since the Unix epoch (0 for a time before it), and its level and kind
    /// by name.
    pub fn from_event(event: UiEvent) -> (r: UiEventDto)
        ensures
            r.timestamp_ms == match event.at_ms {
                Some(m) => m,
                None => 0,
            },
            r.level@ == level_name(event.level),
            r.kind@ == kind_name(event.kind),
            r.message@ == event.message@,
    {
        let timestamp_ms = timestamp_or_zero(event.at_ms);
        UiEventDto {
            timestamp_ms,
            level: event.level.name(),
            kind: event.kind.name(),
            message: event.message,
        }
    }
}

} // verus!
