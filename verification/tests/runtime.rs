use counterfire2::config::SidePreference;
use counterfire2::effects::{spec_for_trigger, Side};
use counterfire2::runtime::{demo_side, sample_trigger, DemoEvent};

const ALL: [DemoEvent; 11] = [
    DemoEvent::Single,
    DemoEvent::Double,
    DemoEvent::Triple,
    DemoEvent::Quad,
    DemoEvent::Penta,
    DemoEvent::Hexa,
    DemoEvent::Septa,
    DemoEvent::Octo,
    DemoEvent::Headshot,
    DemoEvent::Knife,
    DemoEvent::Grenade,
];

#[test]
fn every_demo_event_shows_its_own_effect() {
    for e in ALL {
        let spec = spec_for_trigger(&sample_trigger(e, Some(Side::T)));
        assert_eq!(format!("{:?}", e), spec.key());
        assert_eq!(DemoEvent::parse(spec.scale_key()).unwrap(), e);
    }
}

#[test]
fn demo_loop_order_wraps() {
    let mut e = DemoEvent::Single;
    for expected in ALL.iter().skip(1).chain(ALL.iter().take(1)) {
        e = e.next_in_demo();
        assert_eq!(e, *expected);
    }
}

#[test]
fn sample_kills() {
    let t = sample_trigger(DemoEvent::Grenade, None);
    assert_eq!(t.round_kills, 1);
    assert_eq!(t.weapon.as_deref(), Some("weapon_hegrenade"));
    assert!(!t.is_headshot);
    assert_eq!(t.side, None);
    let h = sample_trigger(DemoEvent::Headshot, Some(Side::Ct));
    assert!(h.is_headshot);
    assert_eq!(h.side, Some(Side::Ct));
    assert_eq!(sample_trigger(DemoEvent::Octo, None).round_kills, 8);
    assert_eq!(DemoEvent::parse("HeadShot").unwrap(), DemoEvent::Headshot);
    assert_eq!(DemoEvent::parse("nine").unwrap_err().text, "nine");
}

#[test]
fn demo_sides() {
    assert_eq!(demo_side(SidePreference::Ct), Some(Side::Ct));
    assert_eq!(demo_side(SidePreference::T), Some(Side::T));
    for _ in 0..10 {
        assert!(demo_side(SidePreference::Auto).is_some());
    }
}
