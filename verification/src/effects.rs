//! Kill effects: which effect a kill triggers, and the state of the effect on screen.
use vstd::prelude::*;

use rand::rngs::ThreadRng;

use crate::clock::MonotonicClock;
use crate::random::choose_name;
use crate::text::{ascii_lower, ascii_upper, contains_lower, eq_lower, eq_upper, has_infix};

verus! {

/// Voice language.
#[derive(Debug, Clone, Copy, PartialEq, Eq, Structural)]
pub enum Lang {
    Cn,
    En,
}

/// Team of the local player.
#[derive(Debug, Clone, Copy, PartialEq, Eq, Structural)]
pub enum Side {
    Ct,
    T,
}

/// A name that no variant answers to.
#[derive(Debug, Clone, PartialEq, Eq)]
pub struct UnknownName {
    pub text: String,
}

/// The language that a name denotes, case-insensitively in ASCII.
pub open spec fn lang_named(s: Seq<char>) -> Option<Lang> {
    let l = ascii_lower(s);
    if l == "cn"@ || l == "zh"@ || l == "zh-cn"@ {
        Some(Lang::Cn)
    } else if l == "en"@ || l == "english"@ {
        Some(Lang::En)
    } else {
        None
    }
}

/// The side that a name denotes, case-insensitively in ASCII.
pub open spec fn side_named(s: Seq<char>) -> Option<Side> {
    let u = ascii_upper(s);
    if u == "CT"@ {
        Some(Side::Ct)
    } else if u == "T"@ {
        Some(Side::T)
    } else {
        None
    }
}

/// The file-name suffix of a side.
pub open spec fn side_suffix(side: Side) -> Seq<char> {
    match side {
        Side::Ct => "CT"@,
        Side::T => "T"@,
    }
}

impl Lang {
    /// Parses a language name: `cn`, `zh`, `zh-cn`, `en` or `english`, in any ASCII case.
    pub fn parse(s: &str) -> (r: Result<Lang, UnknownName>)
        ensures
            match r {
                Ok(l) => lang_named(s@) == Some(l),
                Err(e) => lang_named(s@) is None && e.text@ == s@,
            },
    {
        if eq_lower(s, "cn") || eq_lower(s, "zh") || eq_lower(s, "zh-cn") {
            Ok(Lang::Cn)
        } else if eq_lower(s, "en") || eq_lower(s, "english") {
            Ok(Lang::En)
        } else {
            Err(UnknownName { text: s.to_owned() })
        }
    }
}

impl Side {
    /// `"CT"` or `"T"`.
    pub fn suffix(self) -> (r: &'static str)
        ensures
            r@ == side_suffix(self),
    {
        match self {
            Side::Ct => "CT",
            Side::T => "T",
        }
    }

    /// Parses `CT` or `T`, in any ASCII case.
    pub fn parse(s: &str) -> (r: Result<Side, UnknownName>)
        ensures
            match r {
                Ok(side) => side_named(s@) == Some(side),
                Err(e) => side_named(s@) is None && e.text@ == s@,
            },
    {
        if eq_upper(s, "CT") {
            Ok(Side::Ct)
        } else if eq_upper(s, "T") {
            Ok(Side::T)
        } else {
            Err(UnknownName { text: s.to_owned() })
        }
    }
}


/// The eleven kill effects.
#[derive(Debug, Clone, Copy, PartialEq, Eq, Structural)]
pub enum EffectKind {
    Single,
    Double,
    Triple,
    Quad,
    Penta,
    Hexa,
    Septa,
    Octo,
    Headshot,
    Knife,
    Grenade,
}

/// What a kill looks and sounds like: its badge images, voice line, hit
/// sound and flash image.
#[derive(Debug, Clone, Copy, PartialEq, Eq, Structural)]
pub struct EventSpec {
    pub kind: EffectKind,
}

/// The display key of an effect.
pub open spec fn kind_key(k: EffectKind) -> Seq<char> {
    match k {
        EffectKind::Single => "Single"@,
        EffectKind::Double => "Double"@,
        EffectKind::Triple => "Triple"@,
        EffectKind::Quad => "Quad"@,
        EffectKind::Penta => "Penta"@,
        EffectKind::Hexa => "Hexa"@,
        EffectKind::Septa => "Septa"@,
        EffectKind::Octo => "Octo"@,
        EffectKind::Headshot => "Headshot"@,
        EffectKind::Knife => "Knife"@,
        EffectKind::Grenade => "Grenade"@,
    }
}

/// The per-effect icon size setting that applies to an effect.
pub open spec fn kind_scale_key(k: EffectKind) -> Seq<char> {
    match k {
        EffectKind::Single => "single"@,
        EffectKind::Double => "double"@,
        EffectKind::Triple => "triple"@,
        EffectKind::Quad => "quad"@,
        EffectKind::Penta => "penta"@,
        EffectKind::Hexa => "hexa"@,
        EffectKind::Septa => "septa"@,
        EffectKind::Octo => "octo"@,
        EffectKind::Headshot => "headshot"@,
        EffectKind::Knife => "knife"@,
        EffectKind::Grenade => "grenade"@,
    }
}

/// The badge images an effect picks one from.
pub open spec fn kind_badges(k: EffectKind) -> Seq<Seq<char>> {
    match k {
        EffectKind::Single => seq!["badge_multi1"@],
        EffectKind::Double => seq!["badge_multi2"@],
        EffectKind::Triple => seq!["badge_multi3"@],
        EffectKind::Quad => seq!["badge_multi4"@],
        EffectKind::Penta => seq!["badge_multi5"@],
        EffectKind::Hexa | EffectKind::Septa | EffectKind::Octo => seq!["badge_multi6"@],
        EffectKind::Headshot => seq!["badge_headshot"@, "badge_headshot_gold"@],
        EffectKind::Knife => seq!["badge_knife"@],
        EffectKind::Grenade => seq!["badge_grenade"@],
    }
}

/// The voice line of an effect, if it has one.
pub open spec fn kind_voice(k: EffectKind) -> Option<Seq<char>> {
    match k {
        EffectKind::Single => None,
        EffectKind::Double => Some("MultiKill_2"@),
        EffectKind::Triple => Some("MultiKill_3"@),
        EffectKind::Quad => Some("MultiKill_4"@),
        EffectKind::Penta => Some("MultiKill_5"@),
        EffectKind::Hexa => Some("MultiKill_6"@),
        EffectKind::Septa => Some("MultiKill_7"@),
        EffectKind::Octo => Some("MultiKill_8"@),
        EffectKind::Headshot => Some("Headshot"@),
        EffectKind::Knife => Some("Knifekill"@),
        EffectKind::Grenade => Some("Grenadekill"@),
    }
}

/// The flash image of an effect, if it has one.
pub open spec fn kind_fx(k: EffectKind) -> Option<Seq<char>> {
    match k {
        EffectKind::Double => Some("multi2_fx"@),
        EffectKind::Triple => Some("multi3_fx"@),
        EffectKind::Quad => Some("multi4_fx"@),
        EffectKind::Penta => Some("multi5_fx"@),
        EffectKind::Hexa | EffectKind::Septa | EffectKind::Octo => Some("multi6_fx"@),
        _ => None,
    }
}

/// Whether the badge of an effect skips the zoom-in at its start.
pub open spec fn kind_no_scale(k: EffectKind) -> bool {
    k == EffectKind::Headshot
}

/// The hit sound that every effect plays.
pub open spec fn hit_sound() -> Seq<char> {
    "UI_SPECIALKILL2"@
}

pub open spec fn opt_view(o: Option<&'static str>) -> Option<Seq<char>> {
    match o {
        Some(s) => Some(s@),
        None => None,
    }
}

impl EventSpec {
    /// The display key, such as `"Double"`.
    pub fn key(&self) -> (r: &'static str)
        ensures
            r@ == kind_key(self.kind),
    {
        match self.kind {
            EffectKind::Single => "Single",
            EffectKind::Double => "Double",
            EffectKind::Triple => "Triple",
            EffectKind::Quad => "Quad",
            EffectKind::Penta => "Penta",
            EffectKind::Hexa => "Hexa",
            EffectKind::Septa => "Septa",
            EffectKind::Octo => "Octo",
            EffectKind::Headshot => "Headshot",
            EffectKind::Knife => "Knife",
            EffectKind::Grenade => "Grenade",
        }
    }

    /// The name of the per-effect icon size setting, such as `"double"`.
    pub fn scale_key(&self) -> (r: &'static str)
        ensures
            r@ == kind_scale_key(self.kind),
    {
        match self.kind {
            EffectKind::Single => "single",
            EffectKind::Double => "double",
            EffectKind::Triple => "triple",
            EffectKind::Quad => "quad",
            EffectKind::Penta => "penta",
            EffectKind::Hexa => "hexa",
            EffectKind::Septa => "septa",
            EffectKind::Octo => "octo",
            EffectKind::Headshot => "headshot",
            EffectKind::Knife => "knife",
            EffectKind::Grenade => "grenade",
        }
    }

    /// The badge images, one of which is shown.
    pub fn badge_pool(&self) -> (r: Vec<&'static str>)
        ensures
            r@.len() == kind_badges(self.kind).len(),
            forall|i: int| 0 <= i < r@.len() ==> (#[trigger] r@[i])@ == kind_badges(self.kind)[i],
    {
        let mut v: Vec<&'static str> = Vec::new();
        match self.kind {
            EffectKind::Single => v.push("badge_multi1"),
            EffectKind::Double => v.push("badge_multi2"),
            EffectKind::Triple => v.push("badge_multi3"),
            EffectKind::Quad => v.push("badge_multi4"),
            EffectKind::Penta => v.push("badge_multi5"),
            EffectKind::Hexa | EffectKind::Septa | EffectKind::Octo => v.push("badge_multi6"),
            EffectKind::Headshot => {
                v.push("badge_headshot");
                v.push("badge_headshot_gold");
            },
            EffectKind::Knife => v.push("badge_knife"),
            EffectKind::Grenade => v.push("badge_grenade"),
        }
        v
    }

    /// The voice line, if any.
    pub fn voice_key(&self) -> (r: Option<&'static str>)
        ensures
            opt_view(r) == kind_voice(self.kind),
    {
        match self.kind {
            EffectKind::Single => None,
            EffectKind::Double => Some("MultiKill_2"),
            EffectKind::Triple => Some("MultiKill_3"),
            EffectKind::Quad => Some("MultiKill_4"),
            EffectKind::Penta => Some("MultiKill_5"),
            EffectKind::Hexa => Some("MultiKill_6"),
            EffectKind::Septa => Some("MultiKill_7"),
            EffectKind::Octo => Some("MultiKill_8"),
            EffectKind::Headshot => Some("Headshot"),
            EffectKind::Knife => Some("Knifekill"),
            EffectKind::Grenade => Some("Grenadekill"),
        }
    }

    /// The hit sound, which every effect has.
    pub fn hit_sfx(&self) -> (r: Option<&'static str>)
        ensures
            opt_view(r) == Some(hit_sound()),
    {
        Some("UI_SPECIALKILL2")
    }

    /// The flash image, if any.
    pub fn fx_name(&self) -> (r: Option<&'static str>)
        ensures
            opt_view(r) == kind_fx(self.kind),
    {
        match self.kind {
            EffectKind::Double => Some("multi2_fx"),
            EffectKind::Triple => Some("multi3_fx"),
            EffectKind::Quad => Some("multi4_fx"),
            EffectKind::Penta => Some("multi5_fx"),
            EffectKind::Hexa | EffectKind::Septa | EffectKind::Octo => Some("multi6_fx"),
            _ => None,
        }
    }

    /// Whether the badge skips the zoom-in.
    pub fn no_scale(&self) -> (r: bool)
        ensures
            r == kind_no_scale(self.kind),
    {
        match self.kind {
            EffectKind::Headshot => true,
            _ => false,
        }
    }
}

/// A kill of the local player, as the effect logic sees it.
#[derive(Debug, Clone)]
pub struct KillTrigger {
    pub round_kills: u32,
    pub weapon: Option<String>,
    pub is_headshot: bool,
    pub side: Option<Side>,
}

pub open spec fn string_opt_view(o: Option<String>) -> Option<Seq<char>> {
    match o {
        Some(s) => Some(s@),
        None => None,
    }
}

/// A weapon name that names a knife: it holds `knife` or `bayonet`, in any ASCII case.
pub open spec fn is_knife_name(w: Seq<char>) -> bool {
    has_infix(ascii_lower(w), "knife"@) || has_infix(ascii_lower(w), "bayonet"@)
}

/// A weapon name that names a grenade: it holds `hegrenade` or `grenade`, in any ASCII case.
pub open spec fn is_grenade_name(w: Seq<char>) -> bool {
    has_infix(ascii_lower(w), "hegrenade"@) || has_infix(ascii_lower(w), "grenade"@)
}

/// The multi-kill effect for a count of kills, the count taken between 1 and 8.
pub open spec fn multi_kill_kind(round_kills: u32) -> EffectKind {
    if round_kills <= 1 {
        EffectKind::Single
    } else if round_kills == 2 {
        EffectKind::Double
    } else if round_kills == 3 {
        EffectKind::Triple
    } else if round_kills == 4 {
        EffectKind::Quad
    } else if round_kills == 5 {
        EffectKind::Penta
    } else if round_kills == 6 {
        EffectKind::Hexa
    } else if round_kills == 7 {
        EffectKind::Septa
    } else {
        EffectKind::Octo
    }
}

/// The effect of a kill: a knife kill first, then a grenade kill, then a
/// headshot, and otherwise the multi-kill effect of the count.
pub open spec fn effect_for(round_kills: u32, weapon: Option<Seq<char>>, is_headshot: bool) -> EffectKind {
    if weapon is Some && is_knife_name(weapon->0) {
        EffectKind::Knife
    } else if weapon is Some && is_grenade_name(weapon->0) {
        EffectKind::Grenade
    } else if is_headshot {
        EffectKind::Headshot
    } else {
        multi_kill_kind(round_kills)
    }
}

pub open spec fn trigger_effect(t: KillTrigger) -> EffectKind {
    effect_for(t.round_kills, string_opt_view(t.weapon), t.is_headshot)
}

/// Whether a weapon name names a knife.
pub fn is_knife(weapon: &str) -> (r: bool)
    ensures
        r == is_knife_name(weapon@),
{
    contains_lower(weapon, "knife") || contains_lower(weapon, "bayonet")
}

/// Whether a weapon name names a grenade.
pub fn is_grenade(weapon: &str) -> (r: bool)
    ensures
        r == is_grenade_name(weapon@),
{
    contains_lower(weapon, "hegrenade") || contains_lower(weapon, "grenade")
}

/// The effect spec that a kill triggers.
pub fn spec_for_trigger(trigger: &KillTrigger) -> (r: EventSpec)
    ensures
        r.kind == trigger_effect(*trigger),
{
    if let Some(w) = &trigger.weapon {
        if is_knife(w.as_str()) {
            return EventSpec { kind: EffectKind::Knife };
        }
    }
    if let Some(w) = &trigger.weapon {
        if is_grenade(w.as_str()) {
            return EventSpec { kind: EffectKind::Grenade };
        }
    }
    if trigger.is_headshot {
        return EventSpec { kind: EffectKind::Headshot };
    }
    let kind = if trigger.round_kills <= 1 {
        EffectKind::Single
    } else if trigger.round_kills == 2 {
        EffectKind::Double
    } else if trigger.round_kills == 3 {
        EffectKind::Triple
    } else if trigger.round_kills == 4 {
        EffectKind::Quad
    } else if trigger.round_kills == 5 {
        EffectKind::Penta
    } else if trigger.round_kills == 6 {
        EffectKind::Hexa
    } else if trigger.round_kills == 7 {
        EffectKind::Septa
    } else {
        EffectKind::Octo
    };
    EventSpec { kind }
}


/// How long an effect stays on screen: 100 ms zoom-in, 1100 ms hold and
/// 220 ms fade-out, in microseconds.
pub const EFFECT_TOTAL_US: u64 = 1_420_000;

/// Time from `start` to `now`, or zero where `now` comes first.
pub open spec fn elapsed_since(start: u64, now: u64) -> int {
    if now >= start {
        now - start
    } else {
        0
    }
}

/// An effect on screen: its spec, the badge image it picked, and when it started.
#[derive(Debug, Clone)]
pub struct ActiveEffect {
    spec: EventSpec,
    badge_name: &'static str,
    start_us: u64,
}

impl ActiveEffect {
    pub closed spec fn kind(&self) -> EffectKind {
        self.spec.kind
    }

    pub closed spec fn badge(&self) -> Seq<char> {
        self.badge_name@
    }

    pub closed spec fn started_at(&self) -> u64 {
        self.start_us
    }

    /// The effect of `trigger`, started now on `clock`, with a badge picked at
    /// random from the effect's badge images.
    pub fn new(trigger: &KillTrigger, rng: &mut ThreadRng, clock: &MonotonicClock) -> (r: ActiveEffect)
        ensures
            r.kind() == trigger_effect(*trigger),
            kind_badges(r.kind()).contains(r.badge()),
    {
        let spec = spec_for_trigger(trigger);
        let pool = spec.badge_pool();
        let badge_name = match choose_name(pool.as_slice(), rng) {
            Some(b) => *b,
            None => pool[0],
        };
        proof {
            let i = choose|i: int| 0 <= i < pool@.len() && pool@[i] == badge_name;
            assert(kind_badges(spec.kind)[i] == badge_name@);
        }
        let start_us = clock.now_us();
        ActiveEffect { spec, badge_name, start_us }
    }

    /// The effect of `trigger` with the badge image at `badge_index` of its
    /// pool, started at `start_us`.
    pub fn with_badge(trigger: &KillTrigger, badge_index: usize, start_us: u64) -> (r: ActiveEffect)
        requires
            badge_index < kind_badges(trigger_effect(*trigger)).len(),
        ensures
            r.kind() == trigger_effect(*trigger),
            r.badge() == kind_badges(trigger_effect(*trigger))[badge_index as int],
            r.started_at() == start_us,
    {
        let spec = spec_for_trigger(trigger);
        let pool = spec.badge_pool();
        let badge_name = pool[badge_index];
        ActiveEffect { spec, badge_name, start_us }
    }

    pub fn spec(&self) -> (r: &EventSpec)
        ensures
            r.kind == self.kind(),
    {
        &self.spec
    }

    pub fn badge_name(&self) -> (r: &'static str)
        ensures
            r@ == self.badge(),
    {
        self.badge_name
    }

    pub fn start_us(&self) -> (r: u64)
        ensures
            r == self.started_at(),
    {
        self.start_us
    }

    /// Microseconds from the start of the effect to `now_us`, zero where
    /// `now_us` comes first.
    pub fn elapsed_us(&self, now_us: u64) -> (r: u64)
        ensures
            r == elapsed_since(self.started_at(), now_us),
    {
        if now_us >= self.start_us {
            now_us - self.start_us
        } else {
            0
        }
    }

    /// Whether the effect is still on screen at `now_us`.
    pub fn is_alive(&self, now_us: u64) -> (r: bool)
        ensures
            r == (elapsed_since(self.started_at(), now_us) < EFFECT_TOTAL_US),
    {
        self.elapsed_us(now_us) < EFFECT_TOTAL_US
    }
}


impl std::str::FromStr for Lang {
    type Err = UnknownName;

    fn from_str(s: &str) -> (r: Result<Lang, UnknownName>)
        ensures
            match r {
                Ok(l) => lang_named(s@) == Some(l),
                Err(e) => lang_named(s@) is None && e.text@ == s@,
            },
    {
        Lang::parse(s)
    }
}


impl std::str::FromStr for Side {
    type Err = UnknownName;

    fn from_str(s: &str) -> (r: Result<Side, UnknownName>)
        ensures
            match r {
                Ok(side) => side_named(s@) == Some(side),
                Err(e) => side_named(s@) is None && e.text@ == s@,
            },
    {
        Side::parse(s)
    }
}

/// The decimal digit `d`, for `d` below ten.
pub open spec fn digit_char(d: nat) -> char {
    (48 + d) as char
}

/// The multi-kill effects follow the count of kills: a plain kill (no knife,
/// no grenade, no headshot) that makes `n` kills with `2 <= n <= 8` speaks the
/// voice line `MultiKill_<n>`, shows the badge `badge_multi<k>` and the flash
/// image `multi<k>_fx` with `k` the count held at 6; a first kill shows
/// `badge_multi1` with neither voice line nor flash image.
pub proof fn law_multi_kill_effects_follow_count(n: u32)
    requires
        1 <= n <= 8,
    ensures
        n >= 2 ==> kind_voice(effect_for(n, None, false)) == Some("MultiKill_"@.push(digit_char(n as nat))),
        kind_badges(effect_for(n, None, false)) == seq![
            "badge_multi"@.push(digit_char(if n <= 6 { n as nat } else { 6 })),
        ],
        n >= 2 ==> kind_fx(effect_for(n, None, false)) == Some(
            "multi"@.push(digit_char(if n <= 6 { n as nat } else { 6 })) + "_fx"@,
        ),
        n == 1 ==> kind_voice(effect_for(n, None, false)) is None && kind_fx(effect_for(n, None, false)) is None,
{
    reveal_strlit("MultiKill_");
    reveal_strlit("badge_multi");
    reveal_strlit("multi");
    reveal_strlit("_fx");
    reveal_strlit("MultiKill_2");
    reveal_strlit("MultiKill_3");
    reveal_strlit("MultiKill_4");
    reveal_strlit("MultiKill_5");
    reveal_strlit("MultiKill_6");
    reveal_strlit("MultiKill_7");
    reveal_strlit("MultiKill_8");
    reveal_strlit("badge_multi1");
    reveal_strlit("badge_multi2");
    reveal_strlit("badge_multi3");
    reveal_strlit("badge_multi4");
    reveal_strlit("badge_multi5");
    reveal_strlit("badge_multi6");
    reveal_strlit("multi2_fx");
    reveal_strlit("multi3_fx");
    reveal_strlit("multi4_fx");
    reveal_strlit("multi5_fx");
    reveal_strlit("multi6_fx");
    if n == 1 {
        assert("badge_multi"@.push(digit_char(1)) =~= "badge_multi1"@);
    }
    if n == 2 {
        assert("MultiKill_"@.push(digit_char(2)) =~= "MultiKill_2"@);
        assert("multi"@.push(digit_char(2)) + "_fx"@ =~= "multi2_fx"@);
        assert("badge_multi"@.push(digit_char(2)) =~= "badge_multi2"@);
    }
    if n == 3 {
        assert("MultiKill_"@.push(digit_char(3)) =~= "MultiKill_3"@);
        assert("multi"@.push(digit_char(3)) + "_fx"@ =~= "multi3_fx"@);
        assert("badge_multi"@.push(digit_char(3)) =~= "badge_multi3"@);
    }
    if n == 4 {
        assert("MultiKill_"@.push(digit_char(4)) =~= "MultiKill_4"@);
        assert("multi"@.push(digit_char(4)) + "_fx"@ =~= "multi4_fx"@);
        assert("badge_multi"@.push(digit_char(4)) =~= "badge_multi4"@);
    }
    if n == 5 {
        assert("MultiKill_"@.push(digit_char(5)) =~= "MultiKill_5"@);
        assert("multi"@.push(digit_char(5)) + "_fx"@ =~= "multi5_fx"@);
        assert("badge_multi"@.push(digit_char(5)) =~= "badge_multi5"@);
    }
    if n == 6 {
        assert("MultiKill_"@.push(digit_char(6)) =~= "MultiKill_6"@);
        assert("multi"@.push(digit_char(6)) + "_fx"@ =~= "multi6_fx"@);
        assert("badge_multi"@.push(digit_char(6)) =~= "badge_multi6"@);
    }
    if n == 7 {
        assert("MultiKill_"@.push(digit_char(7)) =~= "MultiKill_7"@);
        assert("multi"@.push(digit_char(6)) + "_fx"@ =~= "multi6_fx"@);
        assert("badge_multi"@.push(digit_char(6)) =~= "badge_multi6"@);
    }
    if n == 8 {
        assert("MultiKill_"@.push(digit_char(8)) =~= "MultiKill_8"@);
        assert("multi"@.push(digit_char(6)) + "_fx"@ =~= "multi6_fx"@);
        assert("badge_multi"@.push(digit_char(6)) =~= "badge_multi6"@);
    }
}

/// An effect stays on screen for 1.42 s (100 ms zoom-in, 1100 ms hold,
/// 220 ms fade-out), counted in microseconds from its start: alive at every
/// time from its start until 1_420_000 us later, and gone from then on.
pub proof fn law_effect_lifetime(e: ActiveEffect, now: u64)
    requires
        now >= e.started_at(),
    ensures
        (elapsed_since(e.started_at(), now) < EFFECT_TOTAL_US) <==> now - e.started_at() < (100 + 1100 + 220) * 1000,
{
}

} // verus!
