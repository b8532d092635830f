use counterfire2::config::{
    help_text, normalize_dimension, parse_cli_args, CliFailure, CliFlag, CliOutcome, FloatSetting, RunMode,
    SidePreference, DEFAULT_GSI_PORT,
};
use counterfire2::effects::{Lang, Side};
use counterfire2::text::IntErrorKind;

fn args(list: &[&str]) -> Vec<String> {
    list.iter().map(|s| s.to_string()).collect()
}

#[test]
fn defaults_without_options() {
    let p = parse_cli_args(args(&["counterfire2", "--cli"]));
    assert!(matches!(p.outcome, CliOutcome::Run));
    assert_eq!(p.options.mode, RunMode::Gsi);
    assert_eq!(p.options.port, DEFAULT_GSI_PORT);
    assert_eq!(p.options.lang, Lang::Cn);
    assert_eq!(p.options.side, SidePreference::Auto);
    assert_eq!(p.options.width, None);
    assert!(p.options.vsync);
    assert!(p.options.fractions.is_empty());
    assert!(matches!(parse_cli_args(vec![]).outcome, CliOutcome::Run));
}

#[test]
fn all_options() {
    let p = parse_cli_args(args(&[
        "cf", "--demo", "--port", "+1234", "--lang", "EN", "--side", "ct", "--width", "1920", "--height",
        "0", "--cli", "--icon-scale", "1.5", "--unlocked", "--volume", "x",
    ]));
    assert!(matches!(p.outcome, CliOutcome::Run));
    assert_eq!(p.options.mode, RunMode::Demo);
    assert_eq!(p.options.port, 1234);
    assert_eq!(p.options.lang, Lang::En);
    assert_eq!(p.options.side, SidePreference::Ct);
    assert_eq!(p.options.width, Some(1920));
    assert_eq!(p.options.height, None);
    assert!(!p.options.vsync);
    assert_eq!(p.options.fractions.len(), 2);
    assert_eq!(p.options.fractions[0].setting, FloatSetting::IconScale);
    assert_eq!(p.options.fractions[0].value, "1.5");
    assert_eq!(p.options.fractions[1].setting, FloatSetting::Volume);
    assert_eq!(p.options.fractions[1].value, "x");
}

#[test]
fn cli_flag_skipped_even_between_option_and_value() {
    let p = parse_cli_args(args(&["cf", "--port", "--cli", "80"]));
    assert!(matches!(p.outcome, CliOutcome::Run));
    assert_eq!(p.options.port, 80);
}

#[test]
fn help_and_failures() {
    assert!(matches!(parse_cli_args(args(&["cf", "--demo", "-h", "--bogus"])).outcome, CliOutcome::Help));
    assert!(matches!(
        parse_cli_args(args(&["cf", "--bogus", "--help"])).outcome,
        CliOutcome::Failed(CliFailure::UnknownArgument(ref a)) if a == "--bogus"
    ));
    assert!(matches!(
        parse_cli_args(args(&["cf", "--width"])).outcome,
        CliOutcome::Failed(CliFailure::MissingValue(CliFlag::Width))
    ));
    assert!(matches!(
        parse_cli_args(args(&["cf", "--port", "70000"])).outcome,
        CliOutcome::Failed(CliFailure::InvalidInteger(CliFlag::Port, IntErrorKind::PosOverflow))
    ));
    assert!(matches!(
        parse_cli_args(args(&["cf", "--lang", "fr"])).outcome,
        CliOutcome::Failed(CliFailure::UnknownLang(ref a)) if a == "fr"
    ));
    assert!(matches!(
        parse_cli_args(args(&["cf", "--side", "ct2"])).outcome,
        CliOutcome::Failed(CliFailure::UnknownSide(ref a)) if a == "ct2"
    ));
    let p = parse_cli_args(args(&["cf", "--icon-x", "abc", "--bogus"]));
    assert_eq!(p.options.fractions.len(), 1);
    assert!(matches!(p.outcome, CliOutcome::Failed(_)));
}

#[test]
fn side_preferences() {
    assert_eq!(SidePreference::parse("AUTO").unwrap(), SidePreference::Auto);
    assert_eq!(SidePreference::parse("T").unwrap(), SidePreference::T);
    assert!(SidePreference::parse("terrorist").is_err());
    assert_eq!(SidePreference::Auto.resolve(Some(Side::T)), Some(Side::T));
    assert_eq!(SidePreference::Auto.resolve(None), None);
    assert_eq!(SidePreference::Ct.resolve(Some(Side::T)), Some(Side::Ct));
    assert_eq!(SidePreference::T.resolve(None), Some(Side::T));
}

#[test]
fn dimensions_and_help() {
    assert_eq!(normalize_dimension(Some(0)), None);
    assert_eq!(normalize_dimension(Some(1)), Some(1));
    assert_eq!(normalize_dimension(Some(16384)), Some(16384));
    assert_eq!(normalize_dimension(Some(16385)), None);
    assert_eq!(normalize_dimension(None), None);
    assert!(help_text().starts_with("CounterFire 2\n\n"));
    assert!(help_text().contains("--kill-streak-reset"));
}
