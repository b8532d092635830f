//! The demo: the sample kills it plays and the side it plays them for.
use vstd::prelude::*;

use crate::config::SidePreference;
use crate::effects::{
    kind_scale_key, trigger_effect, EffectKind,
    KillTrigger, Side, UnknownName,
};
use crate::random::random_bool;
use crate::text::{ascii_lower, eq_lower, has_infix, occurs_at};

verus! {

/// The sample kills that the demo and the test buttons play.
#[derive(Debug, Clone, Copy, PartialEq, Eq, Structural)]
pub enum DemoEvent {
    Single,
    Double,
    Triple,
    Quad,
    Penta,
    Hexa,
    Septa,
    Octo,
    Headshot,
    Knife,
    Grenade,
}

/// The demo events in the order the demo loop plays them.
pub open spec fn demo_order() -> Seq<DemoEvent> {
    seq![
        DemoEvent::Single,
        DemoEvent::Double,
        DemoEvent::Triple,
        DemoEvent::Quad,
        DemoEvent::Penta,
        DemoEvent::Hexa,
        DemoEvent::Septa,
        DemoEvent::Octo,
        DemoEvent::Headshot,
        DemoEvent::Knife,
        DemoEvent::Grenade,
    ]
}

/// The effect of the same name as a demo event.
pub open spec fn demo_kind(e: DemoEvent) -> EffectKind {
    match e {
        DemoEvent::Single => EffectKind::Single,
        DemoEvent::Double => EffectKind::Double,
        DemoEvent::Triple => EffectKind::Triple,
        DemoEvent::Quad => EffectKind::Quad,
        DemoEvent::Penta => EffectKind::Penta,
        DemoEvent::Hexa => EffectKind::Hexa,
        DemoEvent::Septa => EffectKind::Septa,
        DemoEvent::Octo => EffectKind::Octo,
        DemoEvent::Headshot => EffectKind::Headshot,
        DemoEvent::Knife => EffectKind::Knife,
        DemoEvent::Grenade => EffectKind::Grenade,
    }
}

/// The demo event that a name denotes: the lower-case name of the event, in
/// any ASCII case.
pub open spec fn demo_named(s: Seq<char>) -> Option<DemoEvent> {
    let l = ascii_lower(s);
    if l == "single"@ {
        Some(DemoEvent::Single)
    } else if l == "double"@ {
        Some(DemoEvent::Double)
    } else if l == "triple"@ {
        Some(DemoEvent::Triple)
    } else if l == "quad"@ {
        Some(DemoEvent::Quad)
    } else if l == "penta"@ {
        Some(DemoEvent::Penta)
    } else if l == "hexa"@ {
        Some(DemoEvent::Hexa)
    } else if l == "septa"@ {
        Some(DemoEvent::Septa)
    } else if l == "octo"@ {
        Some(DemoEvent::Octo)
    } else if l == "headshot"@ {
        Some(DemoEvent::Headshot)
    } else if l == "knife"@ {
        Some(DemoEvent::Knife)
    } else if l == "grenade"@ {
        Some(DemoEvent::Grenade)
    } else {
        None
    }
}

/// The round kill count of a sample kill.
pub open spec fn demo_round_kills(e: DemoEvent) -> u32 {
    match e {
        DemoEvent::Double => 2,
        DemoEvent::Triple => 3,
        DemoEvent::Quad => 4,
        DemoEvent::Penta => 5,
        DemoEvent::Hexa => 6,
        DemoEvent::Septa => 7,
        DemoEvent::Octo => 8,
        _ => 1,
    }
}

/// The weapon of a sample kill.
pub open spec fn demo_weapon(e: DemoEvent) -> Seq<char> {
    match e {
        DemoEvent::Double => "weapon_m4a1"@,
        DemoEvent::Triple => "weapon_awp"@,
        DemoEvent::Knife => "weapon_knife"@,
        DemoEvent::Grenade => "weapon_hegrenade"@,
        _ => "weapon_ak47"@,
    }
}

impl DemoEvent {
    /// Parses the name of a demo event, in any ASCII case.
    pub fn parse(s: &str) -> (r: Result<DemoEvent, UnknownName>)
        ensures
            match r {
                Ok(e) => demo_named(s@) == Some(e),
                Err(err) => demo_named(s@) is None && err.text@ == s@,
            },
    {
        if eq_lower(s, "single") {
            Ok(DemoEvent::Single)
        } else if eq_lower(s, "double") {
            Ok(DemoEvent::Double)
        } else if eq_lower(s, "triple") {
            Ok(DemoEvent::Triple)
        } else if eq_lower(s, "quad") {
            Ok(DemoEvent::Quad)
        } else if eq_lower(s, "penta") {
            Ok(DemoEvent::Penta)
        } else if eq_lower(s, "hexa") {
            Ok(DemoEvent::Hexa)
        } else if eq_lower(s, "septa") {
            Ok(DemoEvent::Septa)
        } else if eq_lower(s, "octo") {
            Ok(DemoEvent::Octo)
        } else if eq_lower(s, "headshot") {
            Ok(DemoEvent::Headshot)
        } else if eq_lower(s, "knife") {
            Ok(DemoEvent::Knife)
        } else if eq_lower(s, "grenade") {
            Ok(DemoEvent::Grenade)
        } else {
            Err(UnknownName { text: s.to_owned() })
        }
    }

    /// The event the demo loop plays after this one, wrapping round.
    pub fn next_in_demo(self) -> (r: DemoEvent)
        ensures
            forall|i: int|
                0 <= i < 11 && #[trigger] demo_order()[i] == self ==> r == demo_order()[(i + 1) % 11],
    {
        match self {
            DemoEvent::Single => DemoEvent::Double,
            DemoEvent::Double => DemoEvent::Triple,
            DemoEvent::Triple => DemoEvent::Quad,
            DemoEvent::Quad => DemoEvent::Penta,
            DemoEvent::Penta => DemoEvent::Hexa,
            DemoEvent::Hexa => DemoEvent::Septa,
            DemoEvent::Septa => DemoEvent::Octo,
            DemoEvent::Octo => DemoEvent::Headshot,
            DemoEvent::Headshot => DemoEvent::Knife,
            DemoEvent::Knife => DemoEvent::Grenade,
            DemoEvent::Grenade => DemoEvent::Single,
        }
    }
}

/// The sample kill of a demo event, for `side`.
pub fn sample_trigger(event: DemoEvent, side: Option<Side>) -> (r: KillTrigger)
    ensures
        r.round_kills == demo_round_kills(event),
        r.weapon is Some && r.weapon->0@ == demo_weapon(event),
        r.is_headshot == (event == DemoEvent::Headshot),
        r.side == side,
{
    let weapon = match event {
        DemoEvent::Double => "weapon_m4a1",
        DemoEvent::Triple => "weapon_awp",
        DemoEvent::Knife => "weapon_knife",
        DemoEvent::Grenade => "weapon_hegrenade",
        _ => "weapon_ak47",
    };
    let round_kills: u32 = match event {
        DemoEvent::Double => 2,
        DemoEvent::Triple => 3,
        DemoEvent::Quad => 4,
        DemoEvent::Penta => 5,
        DemoEvent::Hexa => 6,
        DemoEvent::Septa => 7,
        DemoEvent::Octo => 8,
        _ => 1,
    };
    let is_headshot = match event {
        DemoEvent::Headshot => true,
        _ => false,
    };
    KillTrigger { round_kills, weapon: Some(weapon.to_owned()), is_headshot, side }
}

/// The side the demo plays for: the chosen one, or either side at random
/// where the choice is left to the game.
pub fn demo_side(preference: SidePreference) -> (r: Option<Side>)
    ensures
        preference == SidePreference::Ct ==> r == Some(Side::Ct),
        preference == SidePreference::T ==> r == Some(Side::T),
        preference == SidePreference::Auto ==> r is Some,
{
    match preference {
        SidePreference::Auto => Some(if random_bool() { Side::Ct } else { Side::T }),
        SidePreference::Ct => Some(Side::Ct),
        SidePreference::T => Some(Side::T),
    }
}


/// A pattern whose first character does not occur where the pattern could
/// start does not occur at all.
proof fn lemma_absent_by_first_char(s: Seq<char>, p: Seq<char>)
    requires
        p.len() > 0,
        forall|i: int| 0 <= i <= s.len() - p.len() ==> #[trigger] s[i] != p[0],
    ensures
        !has_infix(s, p),
{
    assert forall|i: int| !occurs_at(s, p, i) by {
        if occurs_at(s, p, i) {
            assert(s.subrange(i, i + p.len())[0] == s[i]);
        }
    }
}

/// The lower-cased sample weapon names start with `weapon_`, whose letters
/// are none of `k`, `b`, `h` and `g`.
proof fn lemma_weapon_prefix(w: Seq<char>, l: Seq<char>, upto: int)
    requires
        l == ascii_lower(w),
        7 <= w.len(),
        w.subrange(0, 7) == "weapon_"@,
        0 <= upto < 7,
    ensures
        forall|i: int| 0 <= i <= upto ==> #[trigger] l[i] != 'k' && l[i] != 'b' && l[i] != 'h' && l[i] != 'g',
{
    reveal_strlit("weapon_");
    assert forall|i: int| 0 <= i <= upto implies #[trigger] l[i] != 'k' && l[i] != 'b' && l[i] != 'h' && l[i] != 'g' by {
        assert(w.subrange(0, 7)[i] == w[i]);
        assert(l[i] == crate::text::lower_char(w[i]));
        assert(i == 0 || i == 1 || i == 2 || i == 3 || i == 4 || i == 5 || i == 6);
    }
}

/// A short text of lower-case letters is its own lower-casing.
proof fn lemma_lower_short(s: Seq<char>)
    requires
        s.len() <= 8,
        s.len() > 0 ==> 'a' <= s[0] <= 'z',
        s.len() > 1 ==> 'a' <= s[1] <= 'z',
        s.len() > 2 ==> 'a' <= s[2] <= 'z',
        s.len() > 3 ==> 'a' <= s[3] <= 'z',
        s.len() > 4 ==> 'a' <= s[4] <= 'z',
        s.len() > 5 ==> 'a' <= s[5] <= 'z',
        s.len() > 6 ==> 'a' <= s[6] <= 'z',
        s.len() > 7 ==> 'a' <= s[7] <= 'z',
    ensures
        ascii_lower(s) == s,
{
    assert forall|i: int| 0 <= i < s.len() implies ascii_lower(s)[i] == s[i] by {
        assert(i == 0 || i == 1 || i == 2 || i == 3 || i == 4 || i == 5 || i == 6 || i == 7);
    }
    assert(ascii_lower(s) =~= s);
}

/// Every demo event shows the effect of the same name, and the name of that
/// effect's icon size setting is the name the event is asked for by.
pub proof fn law_demo_event_shows_its_effect(e: DemoEvent, t: KillTrigger)
    requires
        t.round_kills == demo_round_kills(e),
        t.weapon is Some && t.weapon->0@ == demo_weapon(e),
        t.is_headshot == (e == DemoEvent::Headshot),
    ensures
        trigger_effect(t) == demo_kind(e),
        demo_named(kind_scale_key(demo_kind(e))) == Some(e),
{
    let w = t.weapon->0@;
    let l = ascii_lower(w);
    reveal_strlit("knife");
    reveal_strlit("bayonet");
    reveal_strlit("hegrenade");
    reveal_strlit("grenade");
    reveal_strlit("weapon_");
    reveal_strlit("weapon_ak47");
    reveal_strlit("weapon_m4a1");
    reveal_strlit("weapon_awp");
    reveal_strlit("weapon_knife");
    reveal_strlit("weapon_hegrenade");
    assert(w.subrange(0, 7) =~= "weapon_"@);
    if e == DemoEvent::Knife {
        assert(l.subrange(7, 12) =~= "knife"@);
        assert(occurs_at(l, "knife"@, 7));
    } else if e == DemoEvent::Grenade {
        assert(l.subrange(9, 16) =~= "grenade"@);
        assert(occurs_at(l, "grenade"@, 9));
        assert forall|i: int| 0 <= i <= l.len() - 5 implies #[trigger] l[i] != 'k' by {
            if i < 7 {
                lemma_weapon_prefix(w, l, 6);
            } else {
                assert(i == 7 || i == 8 || i == 9 || i == 10 || i == 11);
            }
        }
        lemma_absent_by_first_char(l, "knife"@);
        lemma_weapon_prefix(w, l, 6);
        lemma_absent_by_first_char(l, "bayonet"@);
    } else {
        lemma_weapon_prefix(w, l, 6);
        lemma_absent_by_first_char(l, "knife"@);
        lemma_absent_by_first_char(l, "bayonet"@);
        lemma_absent_by_first_char(l, "hegrenade"@);
        lemma_absent_by_first_char(l, "grenade"@);
    }
    let k = kind_scale_key(demo_kind(e));
    reveal_strlit("single");
    reveal_strlit("double");
    reveal_strlit("triple");
    reveal_strlit("quad");
    reveal_strlit("penta");
    reveal_strlit("hexa");
    reveal_strlit("septa");
    reveal_strlit("octo");
    reveal_strlit("headshot");
    reveal_strlit("knife");
    reveal_strlit("grenade");
    lemma_lower_short(k);
    match e {
        DemoEvent::Single => {
            assert(k.len() == 6 && k[0] == 's');
        },
        DemoEvent::Double => {
            assert(k.len() == 6 && k[0] == 'd');
        },
        DemoEvent::Triple => {
            assert(k.len() == 6 && k[0] == 't');
        },
        DemoEvent::Quad => {
            assert(k.len() == 4 && k[0] == 'q');
        },
        DemoEvent::Penta => {
            assert(k.len() == 5 && k[0] == 'p');
        },
        DemoEvent::Hexa => {
            assert(k.len() == 4 && k[0] == 'h');
        },
        DemoEvent::Septa => {
            assert(k.len() == 5 && k[0] == 's');
        },
        DemoEvent::Octo => {
            assert(k.len() == 4 && k[0] == 'o');
        },
        DemoEvent::Headshot => {
            assert(k.len() == 8 && k[0] == 'h');
        },
        DemoEvent::Knife => {
            assert(k.len() == 5 && k[0] == 'k');
        },
        DemoEvent::Grenade => {
            assert(k.len() == 7 && k[0] == 'g');
        },
    }
}


impl std::str::FromStr for DemoEvent {
    type Err = UnknownName;

    fn from_str(s: &str) -> (r: Result<DemoEvent, UnknownName>)
        ensures
            match r {
                Ok(e) => demo_named(s@) == Some(e),
                Err(err) => demo_named(s@) is None && err.text@ == s@,
            },
    {
        DemoEvent::parse(s)
    }
}

} // verus!
