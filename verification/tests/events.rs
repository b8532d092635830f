use counterfire2::events::{timestamp_or_zero, UiEvent, UiEventDto, UiKind, UiLevel};

#[test]
fn events_and_their_panel_form() {
    let e = UiEvent::warn(UiKind::Gsi, "port busy".to_owned());
    assert_eq!(e.level, UiLevel::Warn);
    assert_eq!(e.kind, UiKind::Gsi);
    let dto = UiEventDto::from_event(e);
    assert_eq!(dto.level, "warn");
    assert_eq!(dto.kind, "gsi");
    assert_eq!(dto.message, "port busy");
    assert!(dto.timestamp_ms > 1_600_000_000_000);
    let i = UiEventDto::from_event(UiEvent::info(UiKind::Effect, String::new()));
    assert_eq!((i.level, i.kind), ("info", "effect"));
    let x = UiEventDto::from_event(UiEvent::error(UiKind::Config, "x".to_owned()));
    assert_eq!((x.level, x.kind), ("error", "config"));
    assert_eq!(UiKind::Runtime.name(), "runtime");
    assert_eq!(UiKind::Overlay.name(), "overlay");
    assert_eq!(UiKind::Demo.name(), "demo");
}

#[test]
fn timestamps_before_the_epoch_are_zero() {
    assert_eq!(timestamp_or_zero(Some(1_700_000_000_123)), 1_700_000_000_123);
    assert_eq!(timestamp_or_zero(Some(0)), 0);
    assert_eq!(timestamp_or_zero(None), 0);
}

#[test]
fn panel_timestamp_is_the_event_time() {
    let mut e = UiEvent::info(UiKind::Runtime, "up".to_owned());
    e.at_ms = Some(1_700_000_000_123);
    assert_eq!(UiEventDto::from_event(e.clone()).timestamp_ms, 1_700_000_000_123);
    e.at_ms = None;
    assert_eq!(UiEventDto::from_event(e).timestamp_ms, 0);
}
