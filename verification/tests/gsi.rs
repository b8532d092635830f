use counterfire2::effects::Side;
use counterfire2::gsi::{
    gsi_fallbacks, local_player, side_from_team, GameSnapshot, KillCandidate, LocalPlayerState,
    PlayerKillState, PlayerSnapshot, Team,
};

fn player(steamid: &str, team: Team, round_kills: i32) -> PlayerSnapshot {
    PlayerSnapshot { steamid: steamid.to_owned(), team, round_kills }
}

fn candidate(steamid: &str, observed_round_kills: i32) -> KillCandidate {
    KillCandidate {
        steamid: steamid.to_owned(),
        side: Some(Side::Ct),
        observed_round_kills,
        weapon: None,
        is_headshot: false,
    }
}

/// The reset time in nanoseconds for a reset time in seconds.
fn secs(seconds: f32) -> u64 {
    std::time::Duration::from_secs_f32(seconds).as_nanos() as u64
}

fn tracking(steamid: &str) -> LocalPlayerState {
    let mut local = LocalPlayerState::new();
    local.set_steamid(Some(steamid.to_owned()));
    local
}

#[test]
fn provider_steamid_is_used_instead_of_spectated_player() {
    let mut local = LocalPlayerState::new();
    let state = GameSnapshot {
        provider_steamid: "local".to_owned(),
        allplayers: vec![("local".to_owned(), player("local", Team::Ct, 0))],
        player: Some(player("enemy", Team::T, 3)),
    };

    let changed_side = local.update_from_game_state(&state);

    assert_eq!(local.steamid(), Some("local"));
    assert_eq!(changed_side, Some(Side::Ct));
    assert!(local.try_accept_kill(candidate("enemy", 4), secs(5.0)).is_none());
}

#[test]
fn duplicate_sources_only_accept_one_kill() {
    let mut local = tracking("local");

    let first = local.try_accept_kill(candidate("local", 1), secs(5.0));
    let duplicate = local.try_accept_kill(candidate("local", 1), secs(5.0));

    assert_eq!(first.unwrap().round_kills, 1);
    assert!(duplicate.is_none());
}

#[test]
fn spectated_player_switch_suppresses_historical_round_kill() {
    let mut local = tracking("local");
    let previous = player("enemy", Team::T, 0);
    let current = player("local", Team::Ct, 1);

    local.suppress_switch_kill(&previous, &current);

    assert!(local.try_accept_kill(candidate("local", 1), secs(5.0)).is_none());
    assert_eq!(local.try_accept_kill(candidate("local", 2), secs(5.0)).unwrap().round_kills, 1);
}

#[test]
fn streak_is_isolated_by_steamid() {
    let mut local = tracking("a");

    assert_eq!(local.try_accept_kill(candidate("a", 1), secs(5.0)).unwrap().round_kills, 1);
    assert_eq!(local.try_accept_kill(candidate("a", 2), secs(5.0)).unwrap().round_kills, 2);

    local.set_steamid(Some("b".to_owned()));

    assert_eq!(local.try_accept_kill(candidate("b", 1), secs(5.0)).unwrap().round_kills, 1);
}

#[test]
fn round_reset_allows_next_round_first_kill() {
    let mut local = tracking("local");

    assert!(local.try_accept_kill(candidate("local", 1), secs(5.0)).is_some());
    assert!(local.try_accept_kill(candidate("local", 2), secs(5.0)).is_some());

    local.reset_round();

    let next_round = local.try_accept_kill(candidate("local", 1), secs(5.0)).unwrap();
    assert_eq!(next_round.round_kills, 1);
}

#[test]
fn initial_local_snapshot_becomes_dedupe_baseline() {
    let mut local = LocalPlayerState::new();
    let state = GameSnapshot {
        provider_steamid: "local".to_owned(),
        allplayers: vec![],
        player: Some(player("local", Team::Ct, 1)),
    };

    local.update_from_game_state(&state);

    assert!(local.try_accept_kill(candidate("local", 1), secs(5.0)).is_none());
    assert_eq!(local.try_accept_kill(candidate("local", 2), secs(5.0)).unwrap().round_kills, 1);
}

#[test]
fn streak_grows_within_reset_time_and_restarts_after() {
    let mut local = tracking("me");
    assert_eq!(local.try_accept_kill_at(candidate("me", 1), 1_000, 10_000).unwrap().round_kills, 1);
    assert_eq!(local.try_accept_kill_at(candidate("me", 2), 1_000, 11_000).unwrap().round_kills, 2);
    assert_eq!(local.try_accept_kill_at(candidate("me", 3), 1_000, 12_001).unwrap().round_kills, 1);
    let state = local.kill_state("me").unwrap();
    assert_eq!(state.last_kill_at, Some(12_001));
    assert_eq!(state.last_observed_round_kills, 3);
}

#[test]
fn kill_state_keeps_other_accounts() {
    let mut local = tracking("a");
    local.try_accept_kill_at(candidate("a", 2), 1_000, 5).unwrap();
    local.set_steamid(Some("b".to_owned()));
    local.try_accept_kill_at(candidate("b", 1), 1_000, 6).unwrap();
    let a = local.kill_state("a").unwrap();
    assert_eq!(a.streak, 1);
    assert_eq!(a.last_observed_round_kills, 2);
    assert_eq!(a.last_kill_at, Some(5));
    assert!(local.kill_state("c").is_none());
}

#[test]
fn rejected_candidates() {
    let mut local = tracking("me");
    assert!(local.try_accept_kill_at(candidate("", 1), 1_000, 0).is_none());
    assert!(local.try_accept_kill_at(candidate("me", 0), 1_000, 0).is_none());
    assert!(local.try_accept_kill_at(candidate("me", -3), 1_000, 0).is_none());
    assert!(local.try_accept_kill_at(candidate("other", 1), 1_000, 0).is_none());
    let mut unknown = LocalPlayerState::new();
    assert!(unknown.try_accept_kill_at(candidate("me", 1), 1_000, 0).is_none());
}

#[test]
fn duplicate_kill_keeps_candidate_side() {
    let mut local = tracking("me");
    let mut c = candidate("me", 1);
    c.side = None;
    c.weapon = Some("weapon_knife".to_owned());
    c.is_headshot = true;
    let t = local.try_accept_kill_at(c, 1_000, 0).unwrap();
    assert_eq!(t.side, None);
    assert_eq!(t.weapon.as_deref(), Some("weapon_knife"));
    assert!(t.is_headshot);
    let mut again = candidate("me", 1);
    again.side = Some(Side::T);
    assert!(local.try_accept_kill_at(again, 1_000, 1).is_none());
    assert_eq!(local.side(), Some(Side::T));
}

#[test]
fn switch_to_same_player_or_zero_kills_suppresses_nothing() {
    let mut local = tracking("me");
    local.suppress_switch_kill(&player("me", Team::Ct, 1), &player("me", Team::Ct, 1));
    local.suppress_switch_kill(&player("x", Team::T, 0), &player("me", Team::Ct, 0));
    local.suppress_switch_kill(&player("", Team::T, 0), &player("me", Team::Ct, 1));
    assert!(!local.is_suppressed("me", 1));
    assert!(local.try_accept_kill_at(candidate("me", 1), 1_000, 0).is_some());
    local.suppress_switch_kill(&player("x", Team::T, 0), &player("me", Team::Ct, 2));
    assert!(local.is_suppressed("me", 2));
    local.reset_round();
    assert!(!local.is_suppressed("me", 2));
}

#[test]
fn lower_report_count_starts_round_over() {
    let mut local = tracking("me");
    local.try_accept_kill_at(candidate("me", 3), 1_000, 0).unwrap();
    local.observe_local_round_kills("me", 5);
    assert_eq!(local.kill_state("me").unwrap().last_observed_round_kills, 3);
    local.observe_local_round_kills("me", -1);
    assert_eq!(
        local.kill_state("me").unwrap(),
        PlayerKillState { last_kill_at: None, streak: 0, last_observed_round_kills: 0 }
    );
}

#[test]
fn provider_is_trimmed_and_new_provider_forgets_side() {
    let mut local = LocalPlayerState::new();
    let state = GameSnapshot {
        provider_steamid: "  me\t".to_owned(),
        allplayers: vec![("me".to_owned(), player("me", Team::T, 0))],
        player: None,
    };
    assert_eq!(local.update_from_game_state(&state), Some(Side::T));
    assert_eq!(local.steamid(), Some("me"));
    assert_eq!(local.update_from_game_state(&state), None);
    let other = GameSnapshot { provider_steamid: "you".to_owned(), allplayers: vec![], player: None };
    assert_eq!(local.update_from_game_state(&other), None);
    assert_eq!(local.steamid(), Some("you"));
    assert_eq!(local.side(), None);
    let blank = GameSnapshot { provider_steamid: "   ".to_owned(), allplayers: vec![], player: None };
    assert_eq!(local.update_from_game_state(&blank), None);
    assert_eq!(local.steamid(), Some("you"));
}

#[test]
fn local_player_prefers_listed_player() {
    let state = GameSnapshot {
        provider_steamid: "me".to_owned(),
        allplayers: vec![("me".to_owned(), player("me", Team::T, 4))],
        player: Some(player("me", Team::Ct, 1)),
    };
    assert_eq!(local_player(&state, "me").unwrap().round_kills, 4);
    let only_screen = GameSnapshot { provider_steamid: "me".to_owned(), allplayers: vec![], player: Some(player("me", Team::Ct, 1)) };
    assert_eq!(local_player(&only_screen, "me").unwrap().round_kills, 1);
    assert!(local_player(&only_screen, "you").is_none());
}

#[test]
fn fallback_ports_and_team_sides() {
    assert_eq!(gsi_fallbacks(57534), vec![57535, 57536, 57537, 57538, 57539, 0]);
    assert_eq!(gsi_fallbacks(65533), vec![65534, 65535, 0]);
    assert_eq!(gsi_fallbacks(65535), vec![0]);
    assert_eq!(side_from_team(Team::Ct), Some(Side::Ct));
    assert_eq!(side_from_team(Team::T), Some(Side::T));
    assert_eq!(side_from_team(Team::Unassigned), None);
}

#[test]
fn next_streak_saturates() {
    let mut s = PlayerKillState { last_kill_at: Some(0), streak: u32::MAX, last_observed_round_kills: 1 };
    assert_eq!(s.next_streak(1, 10), u32::MAX);
    let mut t = PlayerKillState::new();
    assert_eq!(t.next_streak(5, 10), 1);
    t.reset_round();
    assert_eq!(t, PlayerKillState::new());
}

#[test]
fn repeated_report_changes_nothing() {
    let mut local = LocalPlayerState::new();
    let state = GameSnapshot {
        provider_steamid: "me".to_owned(),
        allplayers: vec![("me".to_owned(), player("me", Team::Ct, 2))],
        player: None,
    };
    assert_eq!(local.update_from_game_state(&state), Some(Side::Ct));
    let before = local.kill_state("me");
    assert_eq!(local.update_from_game_state(&state), None);
    assert_eq!(local.kill_state("me"), before);
    assert_eq!(local.side(), Some(Side::Ct));
}
