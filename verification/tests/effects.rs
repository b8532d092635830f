use counterfire2::clock::MonotonicClock;
use counterfire2::effects::{
    is_grenade, is_knife, spec_for_trigger, ActiveEffect, EffectKind, EventSpec, KillTrigger, Lang, Side,
    EFFECT_TOTAL_US,
};

fn trigger(round_kills: u32, weapon: Option<&str>, is_headshot: bool) -> KillTrigger {
    KillTrigger { round_kills, weapon: weapon.map(|w| w.to_owned()), is_headshot, side: None }
}

#[test]
fn knife_beats_grenade_beats_headshot_beats_count() {
    assert_eq!(spec_for_trigger(&trigger(5, Some("weapon_knife_t"), true)).kind, EffectKind::Knife);
    assert_eq!(spec_for_trigger(&trigger(5, Some("weapon_Bayonet"), false)).kind, EffectKind::Knife);
    assert_eq!(spec_for_trigger(&trigger(5, Some("weapon_hegrenade"), true)).kind, EffectKind::Grenade);
    assert_eq!(spec_for_trigger(&trigger(5, Some("weapon_ak47"), true)).kind, EffectKind::Headshot);
    assert_eq!(spec_for_trigger(&trigger(0, None, false)).kind, EffectKind::Single);
    assert_eq!(spec_for_trigger(&trigger(1, None, false)).kind, EffectKind::Single);
    assert_eq!(spec_for_trigger(&trigger(4, None, false)).kind, EffectKind::Quad);
    assert_eq!(spec_for_trigger(&trigger(7, None, false)).kind, EffectKind::Septa);
    assert_eq!(spec_for_trigger(&trigger(8, None, false)).kind, EffectKind::Octo);
    assert_eq!(spec_for_trigger(&trigger(30, None, false)).kind, EffectKind::Octo);
}

#[test]
fn weapon_names() {
    assert!(is_knife("KNIFE"));
    assert!(is_knife("weapon_bayonet"));
    assert!(!is_knife("weapon_kni"));
    assert!(is_grenade("weapon_HEGrenade"));
    assert!(is_grenade("grenade"));
    assert!(!is_grenade("weapon_molotov"));
}

#[test]
fn spec_fields() {
    let spec = EventSpec { kind: EffectKind::Headshot };
    assert_eq!(spec.key(), "Headshot");
    assert_eq!(spec.scale_key(), "headshot");
    assert_eq!(spec.badge_pool(), vec!["badge_headshot", "badge_headshot_gold"]);
    assert_eq!(spec.voice_key(), Some("Headshot"));
    assert_eq!(spec.hit_sfx(), Some("UI_SPECIALKILL2"));
    assert_eq!(spec.fx_name(), None);
    assert!(spec.no_scale());
    let octo = EventSpec { kind: EffectKind::Octo };
    assert_eq!(octo.badge_pool(), vec!["badge_multi6"]);
    assert_eq!(octo.fx_name(), Some("multi6_fx"));
    assert_eq!(octo.voice_key(), Some("MultiKill_8"));
    assert!(!octo.no_scale());
    assert_eq!(EventSpec { kind: EffectKind::Single }.voice_key(), None);
}

#[test]
fn lang_and_side_names() {
    assert_eq!(Lang::parse("ZH-CN").unwrap(), Lang::Cn);
    assert_eq!(Lang::parse("English").unwrap(), Lang::En);
    assert_eq!(Lang::parse("fr").unwrap_err().text, "fr");
    assert_eq!(Side::parse("ct").unwrap(), Side::Ct);
    assert_eq!(Side::parse("t").unwrap(), Side::T);
    assert!(Side::parse("x").is_err());
    assert_eq!(Side::Ct.suffix(), "CT");
    assert_eq!(Side::T.suffix(), "T");
}

#[test]
fn active_effect_lifetime() {
    let t = trigger(2, Some("weapon_ak47"), false);
    let e = ActiveEffect::with_badge(&t, 0, 1_000);
    assert_eq!(e.spec().kind, EffectKind::Double);
    assert_eq!(e.badge_name(), "badge_multi2");
    assert_eq!(e.start_us(), 1_000);
    assert!(e.is_alive(1_000));
    assert!(e.is_alive(500));
    assert!(e.is_alive(1_000 + EFFECT_TOTAL_US - 1));
    assert!(!e.is_alive(1_000 + EFFECT_TOTAL_US));
    assert_eq!(e.elapsed_us(500), 0);
    assert_eq!(e.elapsed_us(1_500), 500);
}

#[test]
fn random_badge_comes_from_pool() {
    let clock = MonotonicClock::start();
    let mut rng = rand::thread_rng();
    let t = trigger(1, None, true);
    for _ in 0..20 {
        let e = ActiveEffect::new(&t, &mut rng, &clock);
        assert_eq!(e.spec().kind, EffectKind::Headshot);
        assert!(e.badge_name() == "badge_headshot" || e.badge_name() == "badge_headshot_gold");
        assert!(e.is_alive(e.start_us()));
    }
}
