//! Recognising the local player's kills in the game state reports: which
//! player is the local one, which reported kills are new, how long the kill
//! streak is, and which kills to ignore after the spectated player changes.
use vstd::prelude::*;

use crate::clock::{MonotonicClock, Nanos};
use crate::effects::{string_opt_view, elapsed_since, KillTrigger, Side};
use crate::text::{str_eq, trim, trimmed};

verus! {

/// Number of ports after the preferred one that the listener tries.
pub const PORT_FALLBACK_COUNT: u16 = 5;

/// Team as the game reports it.
#[derive(Debug, Clone, Copy, PartialEq, Eq, Structural)]
pub enum Team {
    Ct,
    T,
    Unassigned,
}

/// The side of a team, none for an unassigned player.
pub open spec fn team_side(team: Team) -> Option<Side> {
    match team {
        Team::Ct => Some(Side::Ct),
        Team::T => Some(Side::T),
        Team::Unassigned => None,
    }
}

pub fn side_from_team(team: Team) -> (r: Option<Side>)
    ensures
        r == team_side(team),
{
    match team {
        Team::Ct => Some(Side::Ct),
        Team::T => Some(Side::T),
        Team::Unassigned => None,
    }
}

/// The ports the listener tries after `port`: the next five that exist, then
/// port 0 (any free port).
pub open spec fn fallback_ports(port: u16) -> Seq<u16> {
    Seq::new(
        (if port as int + 5 <= u16::MAX { 5int } else { u16::MAX - port }) as nat,
        |i: int| (port + i + 1) as u16,
    ).push(0u16)
}

pub fn gsi_fallbacks(port: u16) -> (r: Vec<u16>)
    ensures
        r@ == fallback_ports(port),
{
    let mut v: Vec<u16> = Vec::new();
    let mut offset: u16 = 1;
    while offset <= PORT_FALLBACK_COUNT
        invariant
            1 <= offset <= PORT_FALLBACK_COUNT + 1,
            v@ == Seq::new(
                (if port as int + offset - 1 <= u16::MAX { offset - 1 } else { u16::MAX - port }) as nat,
                |i: int| (port + i + 1) as u16,
            ),
        decreases PORT_FALLBACK_COUNT + 1 - offset,
    {
        match port.checked_add(offset) {
            Some(p) => {
                v.push(p);
            },
            None => {},
        }
        proof {
            assert(v@ =~= Seq::new(
                (if port as int + offset <= u16::MAX { offset as int } else { u16::MAX - port }) as nat,
                |i: int| (port + i + 1) as u16,
            ));
        }
        offset = offset + 1;
    }
    v.push(0);
    assert(v@ =~= fallback_ports(port));
    v
}

/// A player as the game state reports it.
#[derive(Debug, Clone)]
pub struct PlayerSnapshot {
    pub steamid: String,
    pub team: Team,
    pub round_kills: i32,
}

/// The parts of a game state report that the local player tracking reads:
/// the account that sends the reports, all players by account, and the player
/// on screen.
#[derive(Debug, Clone)]
pub struct GameSnapshot {
    pub provider_steamid: String,
    pub allplayers: Vec<(String, PlayerSnapshot)>,
    pub player: Option<PlayerSnapshot>,
}

/// The first player listed under `id`.
pub open spec fn listed_player(entries: Seq<(String, PlayerSnapshot)>, id: Seq<char>) -> Option<PlayerSnapshot>
    decreases entries.len(),
{
    if entries.len() == 0 {
        None
    } else if entries[0].0@ == id {
        Some(entries[0].1)
    } else {
        listed_player(entries.drop_first(), id)
    }
}

/// The player of account `id` in a report: the one listed under `id`, else
/// the player on screen where it has that account.
pub open spec fn player_of(state: GameSnapshot, id: Seq<char>) -> Option<PlayerSnapshot> {
    match listed_player(state.allplayers@, id) {
        Some(p) => Some(p),
        None => match state.player {
            Some(p) => if p.steamid@ == id {
                Some(p)
            } else {
                None
            },
            None => None,
        },
    }
}

/// The player of account `id` in `state`.
pub fn local_player<'a>(state: &'a GameSnapshot, steamid: &str) -> (r: Option<&'a PlayerSnapshot>)
    ensures
        match (r, player_of(*state, steamid@)) {
            (Some(a), Some(b)) => *a == b,
            (None, None) => true,
            _ => false,
        },
{
    let n = state.allplayers.len();
    assert(state.allplayers@.subrange(0, n as int) =~= state.allplayers@);
    let mut i: usize = 0;
    while i < n
        invariant
            n == state.allplayers@.len(),
            i <= n,
            listed_player(state.allplayers@, steamid@) == listed_player(
                state.allplayers@.subrange(i as int, n as int),
                steamid@,
            ),
        decreases n - i,
    {
        let ghost rest = state.allplayers@.subrange(i as int, n as int);
        assert(rest[0] == state.allplayers@[i as int]);
        if str_eq(state.allplayers[i].0.as_str(), steamid) {
            return Some(&state.allplayers[i].1);
        }
        assert(rest.drop_first() =~= state.allplayers@.subrange(i + 1, n as int));
        i = i + 1;
    }
    assert(state.allplayers@.subrange(n as int, n as int).len() == 0);
    match &state.player {
        Some(p) => {
            if str_eq(p.steamid.as_str(), steamid) {
                Some(p)
            } else {
                None
            }
        },
        None => None,
    }
}

/// A reported kill that may be the local player's.
#[derive(Debug, Clone)]
pub struct KillCandidate {
    pub steamid: String,
    pub side: Option<Side>,
    pub observed_round_kills: i32,
    pub weapon: Option<String>,
    pub is_headshot: bool,
}

/// What is known of one player's kills this round.
#[derive(Debug, Clone, Copy, PartialEq, Eq, Structural)]
pub struct PlayerKillState {
    /// When the last accepted kill came, in nanoseconds of the tracker's clock.
    pub last_kill_at: Option<u64>,
    /// Length of the current kill streak.
    pub streak: u32,
    /// The largest round kill count seen.
    pub last_observed_round_kills: i32,
}

/// The state of a player with no kills seen.
pub open spec fn fresh_kill_state() -> PlayerKillState {
    PlayerKillState { last_kill_at: None, streak: 0, last_observed_round_kills: 0 }
}

/// One more kill on a streak, held at `u32::MAX`.
pub open spec fn streak_inc(streak: u32) -> u32 {
    if streak < u32::MAX {
        (streak + 1) as u32
    } else {
        u32::MAX
    }
}

/// A kill accepted at `now`: the streak grows where the last kill is at most
/// `reset_after` before `now`, and starts again at 1 otherwise.
pub open spec fn streak_step(p: PlayerKillState, now: u64, reset_after: u64) -> PlayerKillState {
    let restart = match p.last_kill_at {
        None => true,
        Some(t) => elapsed_since(t, now) > reset_after,
    };
    PlayerKillState {
        last_kill_at: Some(now),
        streak: if restart { 1 } else { streak_inc(p.streak) },
        last_observed_round_kills: p.last_observed_round_kills,
    }
}

impl PlayerKillState {
    pub fn new() -> (r: PlayerKillState)
        ensures
            r == fresh_kill_state(),
    {
        PlayerKillState { last_kill_at: None, streak: 0, last_observed_round_kills: 0 }
    }

    /// Counts a kill at `now_ns` into the streak and gives the streak's length.
    pub fn next_streak(&mut self, now_ns: u64, reset_after_ns: u64) -> (r: u32)
        ensures
            *final(self) == streak_step(*old(self), now_ns, reset_after_ns),
            r == final(self).streak,
    {
        let restart = match self.last_kill_at {
            None => true,
            Some(t) => {
                let elapsed: u64 = if now_ns >= t { now_ns - t } else { 0 };
                elapsed > reset_after_ns
            },
        };
        if restart {
            self.streak = 1;
        } else {
            self.streak = if self.streak < u32::MAX { self.streak + 1 } else { u32::MAX };
        }
        self.last_kill_at = Some(now_ns);
        self.streak
    }

    /// Forgets the round.
    pub fn reset_round(&mut self)
        ensures
            *final(self) == fresh_kill_state(),
    {
        self.last_kill_at = None;
        self.streak = 0;
        self.last_observed_round_kills = 0;
    }
}

struct PlayerEntry {
    steamid: String,
    state: PlayerKillState,
}

struct SuppressedKill {
    steamid: String,
    round_kills: i32,
}

/// What the tracker knows: the local account, its side, each player's kills
/// this round, and the kills to ignore, by account and round kill count.
pub struct LocalModel {
    pub steamid: Option<Seq<char>>,
    pub side: Option<Side>,
    pub players: Map<Seq<char>, PlayerKillState>,
    pub suppressed: Set<(Seq<char>, i32)>,
}

spec fn keys_distinct(v: Seq<PlayerEntry>) -> bool {
    forall|i: int, j: int| 0 <= i < j < v.len() ==> (#[trigger] v[i]).steamid@ != (#[trigger] v[j]).steamid@
}

spec fn has_key(v: Seq<PlayerEntry>, k: Seq<char>) -> bool {
    exists|i: int| 0 <= i < v.len() && (#[trigger] v[i]).steamid@ == k
}

spec fn players_map(v: Seq<PlayerEntry>) -> Map<Seq<char>, PlayerKillState> {
    Map::new(
        |k: Seq<char>| has_key(v, k),
        |k: Seq<char>| v[choose|i: int| 0 <= i < v.len() && (#[trigger] v[i]).steamid@ == k].state,
    )
}

spec fn suppressed_set(v: Seq<SuppressedKill>) -> Set<(Seq<char>, i32)> {
    Set::new(
        |p: (Seq<char>, i32)|
            exists|i: int| 0 <= i < v.len() && (#[trigger] v[i]).steamid@ == p.0 && v[i].round_kills == p.1,
    )
}

proof fn lemma_map_lookup(v: Seq<PlayerEntry>, i: int)
    requires
        keys_distinct(v),
        0 <= i < v.len(),
    ensures
        players_map(v).contains_key(v[i].steamid@),
        players_map(v)[v[i].steamid@] == v[i].state,
{
    let k = v[i].steamid@;
    assert(has_key(v, k));
    let j = choose|j: int| 0 <= j < v.len() && (#[trigger] v[j]).steamid@ == k;
    if j < i {
        assert(v[j].steamid@ != v[i].steamid@);
    }
    if i < j {
        assert(v[i].steamid@ != v[j].steamid@);
    }
}

proof fn lemma_map_set(v: Seq<PlayerEntry>, i: int, e: PlayerEntry)
    requires
        keys_distinct(v),
        0 <= i < v.len(),
        e.steamid@ == v[i].steamid@,
    ensures
        keys_distinct(v.update(i, e)),
        players_map(v.update(i, e)) =~= players_map(v).insert(e.steamid@, e.state),
{
    let w = v.update(i, e);
    assert(keys_distinct(w)) by {
        assert forall|a: int, b: int| 0 <= a < b < w.len() implies (#[trigger] w[a]).steamid@ != (#[trigger] w[b]).steamid@ by {
            assert(v[a].steamid@ != v[b].steamid@);
        }
    }
    assert forall|k: Seq<char>| #[trigger] has_key(w, k) == has_key(v, k) by {
        if has_key(w, k) {
            let j = choose|j: int| 0 <= j < w.len() && (#[trigger] w[j]).steamid@ == k;
            assert(v[j].steamid@ == k);
        }
        if has_key(v, k) {
            let j = choose|j: int| 0 <= j < v.len() && (#[trigger] v[j]).steamid@ == k;
            assert(w[j].steamid@ == k);
        }
    }
    assert forall|k: Seq<char>| players_map(w).contains_key(k) implies players_map(w)[k] == players_map(
        v,
    ).insert(e.steamid@, e.state)[k] by {
        let j = choose|j: int| 0 <= j < w.len() && (#[trigger] w[j]).steamid@ == k;
        lemma_map_lookup(w, j);
        if j != i {
            lemma_map_lookup(v, j);
        }
    }
}

proof fn lemma_map_push(v: Seq<PlayerEntry>, e: PlayerEntry)
    requires
        keys_distinct(v),
        !has_key(v, e.steamid@),
    ensures
        keys_distinct(v.push(e)),
        players_map(v.push(e)) =~= players_map(v).insert(e.steamid@, e.state),
{
    let w = v.push(e);
    assert(keys_distinct(w)) by {
        assert forall|a: int, b: int| 0 <= a < b < w.len() implies (#[trigger] w[a]).steamid@ != (#[trigger] w[b]).steamid@ by {
            if b == v.len() {
                assert(w[a] == v[a]);
                if v[a].steamid@ == e.steamid@ {
                    assert(has_key(v, e.steamid@));
                }
            } else {
                assert(v[a].steamid@ != v[b].steamid@);
            }
        }
    }
    assert forall|k: Seq<char>| #[trigger] has_key(w, k) == (has_key(v, k) || k == e.steamid@) by {
        if has_key(w, k) {
            let j = choose|j: int| 0 <= j < w.len() && (#[trigger] w[j]).steamid@ == k;
            if j < v.len() {
                assert(v[j].steamid@ == k);
            }
        }
        if has_key(v, k) {
            let j = choose|j: int| 0 <= j < v.len() && (#[trigger] v[j]).steamid@ == k;
            assert(w[j].steamid@ == k);
        }
        if k == e.steamid@ {
            assert(w[v.len() as int].steamid@ == k);
        }
    }
    assert forall|k: Seq<char>| players_map(w).contains_key(k) implies players_map(w)[k] == players_map(
        v,
    ).insert(e.steamid@, e.state)[k] by {
        let j = choose|j: int| 0 <= j < w.len() && (#[trigger] w[j]).steamid@ == k;
        lemma_map_lookup(w, j);
        if j < v.len() {
            assert(w[j] == v[j]);
            lemma_map_lookup(v, j);
        }
    }
}

proof fn lemma_set_push(v: Seq<SuppressedKill>, e: SuppressedKill)
    ensures
        suppressed_set(v.push(e)) =~= suppressed_set(v).insert((e.steamid@, e.round_kills)),
{
    let w = v.push(e);
    assert forall|p: (Seq<char>, i32)| #[trigger] suppressed_set(w).contains(p) == suppressed_set(v).insert(
        (e.steamid@, e.round_kills),
    ).contains(p) by {
        if suppressed_set(w).contains(p) {
            let j = choose|j: int| 0 <= j < w.len() && (#[trigger] w[j]).steamid@ == p.0 && w[j].round_kills == p.1;
            if j < v.len() {
                assert(v[j] == w[j]);
                assert(suppressed_set(v).contains(p));
            }
        }
        if suppressed_set(v).contains(p) {
            let j = choose|j: int| 0 <= j < v.len() && (#[trigger] v[j]).steamid@ == p.0 && v[j].round_kills == p.1;
            assert(w[j] == v[j]);
        }
        if p == (e.steamid@, e.round_kills) {
            assert(w[v.len() as int] == e);
        }
    }
}

/// The state of account `id`, fresh where it has none yet.
pub open spec fn prior_state(m: LocalModel, id: Seq<char>) -> PlayerKillState {
    if m.players.contains_key(id) {
        m.players[id]
    } else {
        fresh_kill_state()
    }
}

/// A candidate that may be a new kill of the local player: its account is
/// the local one and not empty, its round kill count is positive, and that
/// count is not one to ignore.
pub open spec fn kill_admissible(m: LocalModel, c: KillCandidate) -> bool {
    &&& c.steamid@.len() > 0
    &&& m.steamid == Some(c.steamid@)
    &&& c.observed_round_kills > 0
    &&& !m.suppressed.contains((c.steamid@, c.observed_round_kills))
}

/// The side a candidate plays for: its own where it reports one, else the
/// tracked one.
pub open spec fn candidate_side(m: LocalModel, c: KillCandidate) -> Option<Side> {
    if c.side is Some {
        c.side
    } else {
        m.side
    }
}

/// Whether an admissible candidate is a kill not seen before: its count is
/// above the largest seen for its account.
pub open spec fn kill_is_new(m: LocalModel, c: KillCandidate) -> bool {
    c.observed_round_kills > prior_state(m, c.steamid@).last_observed_round_kills
}

/// The account's state after accepting candidate `c` at `now`.
pub open spec fn accepted_state(m: LocalModel, c: KillCandidate, now: u64, reset_after: u64) -> PlayerKillState {
    let p = prior_state(m, c.steamid@);
    streak_step(
        PlayerKillState { last_observed_round_kills: c.observed_round_kills, ..p },
        now,
        reset_after,
    )
}

/// What the tracker knows after it was offered candidate `c` at `now`.
pub open spec fn accept_model(m: LocalModel, c: KillCandidate, now: u64, reset_after: u64) -> LocalModel {
    if !kill_admissible(m, c) {
        m
    } else if !kill_is_new(m, c) {
        LocalModel { side: candidate_side(m, c), ..m }
    } else {
        LocalModel {
            side: candidate_side(m, c),
            players: m.players.insert(c.steamid@, accepted_state(m, c, now, reset_after)),
            ..m
        }
    }
}

/// Whether candidate `c` is accepted as a new kill of the local player.
pub open spec fn kill_accepted(m: LocalModel, c: KillCandidate) -> bool {
    kill_admissible(m, c) && kill_is_new(m, c)
}

/// The trigger handed on for an accepted candidate: the streak length as its
/// count, the candidate's weapon and headshot, and the candidate's side.
pub open spec fn trigger_matches(t: KillTrigger, m: LocalModel, c: KillCandidate, now: u64, reset_after: u64) -> bool {
    &&& t.round_kills == accepted_state(m, c, now, reset_after).streak
    &&& string_opt_view(t.weapon) == string_opt_view(c.weapon)
    &&& t.is_headshot == c.is_headshot
    &&& t.side == candidate_side(m, c)
}

/// What the tracker knows after a new round.
pub open spec fn reset_model(m: LocalModel) -> LocalModel {
    LocalModel {
        players: m.players.map_values(|p: PlayerKillState| fresh_kill_state()),
        suppressed: Set::empty(),
        ..m
    }
}

/// Whether a switch of the spectated player from `previous` to `current`
/// makes the current player's round kill count one to ignore.
pub open spec fn switch_suppresses(previous: PlayerSnapshot, current: PlayerSnapshot) -> bool {
    &&& previous.steamid@.len() > 0
    &&& current.steamid@.len() > 0
    &&& previous.steamid@ != current.steamid@
    &&& current.round_kills > 0
}

pub open spec fn suppress_model(m: LocalModel, previous: PlayerSnapshot, current: PlayerSnapshot) -> LocalModel {
    if switch_suppresses(previous, current) {
        LocalModel { suppressed: m.suppressed.insert((current.steamid@, current.round_kills)), ..m }
    } else {
        m
    }
}

/// The round kill count of the local player as seen in a report, at least 0.
pub open spec fn clamp_kills(k: i32) -> i32 {
    if k < 0 {
        0
    } else {
        k
    }
}

/// What the tracker knows after seeing account `id` with `round_kills` kills
/// in a report: a first sighting sets the baseline, a lower count than the
/// largest seen starts the account's round over from that count, and a count
/// at least as large changes nothing.
pub open spec fn observe_model(m: LocalModel, id: Seq<char>, round_kills: i32) -> LocalModel {
    let k = clamp_kills(round_kills);
    if !m.players.contains_key(id) {
        LocalModel {
            players: m.players.insert(id, PlayerKillState { last_observed_round_kills: k, ..fresh_kill_state() }),
            ..m
        }
    } else if k < m.players[id].last_observed_round_kills {
        LocalModel {
            players: m.players.insert(id, PlayerKillState { last_observed_round_kills: k, ..fresh_kill_state() }),
            ..m
        }
    } else {
        m
    }
}

/// The local account after a report from `provider`: a new account forgets
/// the side.
pub open spec fn with_provider(m: LocalModel, provider: Seq<char>) -> LocalModel {
    if m.steamid == Some(provider) {
        m
    } else {
        LocalModel { steamid: Some(provider), side: None, ..m }
    }
}

/// What the tracker knows after a report, and the side it reports as newly
/// detected. The local account is the one that sends the report, trimmed;
/// the local player's team and round kills come from the report's player of
/// that account.
pub open spec fn update_model(m: LocalModel, state: GameSnapshot) -> (LocalModel, Option<Side>) {
    let provider = trimmed(state.provider_steamid@);
    if provider.len() == 0 {
        (m, None)
    } else {
        let m1 = with_provider(m, provider);
        match player_of(state, provider) {
            None => (m1, None),
            Some(p) => {
                let m2 = observe_model(m1, provider, p.round_kills);
                let detected = team_side(p.team);
                let changed = if detected is Some && m2.side != detected {
                    detected
                } else {
                    None
                };
                (LocalModel { side: detected, ..m2 }, changed)
            },
        }
    }
}

/// Tracks the local player across game state reports and decides which
/// reported kills are new kills of the local player.
pub struct LocalPlayerState {
    clock: MonotonicClock,
    steamid: Option<String>,
    side: Option<Side>,
    players: Vec<PlayerEntry>,
    suppressed_switch_kills: Vec<SuppressedKill>,
}

impl View for LocalPlayerState {
    type V = LocalModel;

    closed spec fn view(&self) -> LocalModel {
        LocalModel {
            steamid: string_opt_view(self.steamid),
            side: self.side,
            players: players_map(self.players@),
            suppressed: suppressed_set(self.suppressed_switch_kills@),
        }
    }
}

impl LocalPlayerState {
    #[verifier::type_invariant]
    closed spec fn inv(&self) -> bool {
        keys_distinct(self.players@)
    }

    /// A tracker that knows nothing yet.
    pub fn new() -> (r: LocalPlayerState)
        ensures
            r@.steamid is None,
            r@.side is None,
            r@.players == Map::<Seq<char>, PlayerKillState>::empty(),
            r@.suppressed == Set::<(Seq<char>, i32)>::empty(),
    {
        let r = LocalPlayerState {
            clock: MonotonicClock::start(),
            steamid: None,
            side: None,
            players: Vec::new(),
            suppressed_switch_kills: Vec::new(),
        };
        assert(r@.players =~= Map::<Seq<char>, PlayerKillState>::empty());
        assert(r@.suppressed =~= Set::<(Seq<char>, i32)>::empty());
        r
    }

    /// The local account, if known.
    pub fn steamid(&self) -> (r: Option<&str>)
        ensures
            match r {
                Some(s) => self@.steamid == Some(s@),
                None => self@.steamid is None,
            },
    {
        match &self.steamid {
            Some(s) => Some(s.as_str()),
            None => None,
        }
    }

    /// Sets the local account, keeping all else.
    pub fn set_steamid(&mut self, steamid: Option<String>)
        ensures
            final(self)@ == (LocalModel { steamid: string_opt_view(steamid), ..old(self)@ }),
    {
        proof {
            use_type_invariant(&*self);
        }
        self.steamid = steamid;
    }

    /// The local player's side, if known.
    pub fn side(&self) -> (r: Option<Side>)
        ensures
            r == self@.side,
    {
        self.side
    }

    fn find_player(&self, id: &str) -> (r: Option<usize>)
        ensures
            match r {
                Some(i) => i < self.players@.len() && self.players@[i as int].steamid@ == id@,
                None => !has_key(self.players@, id@),
            },
    {
        let n = self.players.len();
        let mut i: usize = 0;
        while i < n
            invariant
                n == self.players@.len(),
                i <= n,
                forall|j: int| 0 <= j < i ==> (#[trigger] self.players@[j]).steamid@ != id@,
            decreases n - i,
        {
            if str_eq(self.players[i].steamid.as_str(), id) {
                return Some(i);
            }
            i = i + 1;
        }
        None
    }

    /// The kill state of account `id`, if it has one.
    pub fn kill_state(&self, id: &str) -> (r: Option<PlayerKillState>)
        ensures
            match r {
                Some(p) => self@.players.contains_key(id@) && self@.players[id@] == p,
                None => !self@.players.contains_key(id@),
            },
    {
        proof {
            use_type_invariant(self);
        }
        match self.find_player(id) {
            Some(i) => {
                proof {
                    lemma_map_lookup(self.players@, i as int);
                }
                Some(self.players[i].state)
            },
            None => None,
        }
    }

    /// Whether a kill of account `id` at round kill count `round_kills` is one to ignore.
    pub fn is_suppressed(&self, id: &str, round_kills: i32) -> (r: bool)
        ensures
            r == self@.suppressed.contains((id@, round_kills)),
    {
        let n = self.suppressed_switch_kills.len();
        let mut i: usize = 0;
        while i < n
            invariant
                n == self.suppressed_switch_kills@.len(),
                i <= n,
                forall|j: int|
                    0 <= j < i ==> !((#[trigger] self.suppressed_switch_kills@[j]).steamid@ == id@
                        && self.suppressed_switch_kills@[j].round_kills == round_kills),
            decreases n - i,
        {
            if self.suppressed_switch_kills[i].round_kills == round_kills && str_eq(
                self.suppressed_switch_kills[i].steamid.as_str(),
                id,
            ) {
                assert(suppressed_set(self.suppressed_switch_kills@).contains((id@, round_kills)));
                return true;
            }
            i = i + 1;
        }
        false
    }

    /// Puts `state` in place for account `id`.
    fn store_player(&mut self, id: String, state: PlayerKillState)
        ensures
            final(self)@ == (LocalModel { players: old(self)@.players.insert(id@, state), ..old(self)@ }),
    {
        proof {
            use_type_invariant(&*self);
        }
        let found = self.find_player(id.as_str());
        let mut players: Vec<PlayerEntry> = Vec::new();
        std::mem::swap(&mut players, &mut self.players);
        let e = PlayerEntry { steamid: id, state };
        match found {
            Some(i) => {
                proof {
                    lemma_map_set(players@, i as int, e);
                }
                players.set(i, e);
            },
            None => {
                proof {
                    lemma_map_push(players@, e);
                }
                players.push(e);
            },
        }
        self.players = players;
    }

    /// Makes the kill of the player that the spectator switched to, at the
    /// count it had when the switch came, one to ignore.
    pub fn suppress_switch_kill(&mut self, previous: &PlayerSnapshot, player: &PlayerSnapshot)
        ensures
            final(self)@ == suppress_model(old(self)@, *previous, *player),
    {
        proof {
            use_type_invariant(&*self);
        }
        if previous.steamid.as_str().is_empty() || player.steamid.as_str().is_empty() || str_eq(
            previous.steamid.as_str(),
            player.steamid.as_str(),
        ) || player.round_kills <= 0 {
            return;
        }
        if self.is_suppressed(player.steamid.as_str(), player.round_kills) {
            assert(self@.suppressed.insert((player.steamid@, player.round_kills)) =~= self@.suppressed);
            return;
        }
        let e = SuppressedKill { steamid: player.steamid.clone(), round_kills: player.round_kills };
        let mut kills: Vec<SuppressedKill> = Vec::new();
        std::mem::swap(&mut kills, &mut self.suppressed_switch_kills);
        proof {
            lemma_set_push(kills@, e);
        }
        kills.push(e);
        self.suppressed_switch_kills = kills;
    }

    /// Decides whether `candidate` is a new kill of the local player, with
    /// `now_ns` as the time of the kill, and gives its trigger where it is.
    pub fn try_accept_kill_at(&mut self, candidate: KillCandidate, reset_after_ns: u64, now_ns: u64) -> (r:
        Option<KillTrigger>)
        ensures
            final(self)@ == accept_model(old(self)@, candidate, now_ns, reset_after_ns),
            r is Some <==> kill_accepted(old(self)@, candidate),
            r matches Some(t) ==> trigger_matches(t, old(self)@, candidate, now_ns, reset_after_ns),
    {
        proof {
            use_type_invariant(&*self);
        }
        let ghost m = self@;
        let ghost c = candidate;
        let local_match = match &self.steamid {
            Some(s) => str_eq(s.as_str(), candidate.steamid.as_str()),
            None => false,
        };
        if candidate.steamid.as_str().is_empty() || !local_match || candidate.observed_round_kills <= 0
            || self.is_suppressed(candidate.steamid.as_str(), candidate.observed_round_kills) {
            return None;
        }
        let side = match candidate.side {
            Some(s) => Some(s),
            None => self.side,
        };
        if candidate.side.is_some() {
            self.side = candidate.side;
        }
        let prior = match self.find_player(candidate.steamid.as_str()) {
            Some(i) => {
                proof {
                    lemma_map_lookup(self.players@, i as int);
                }
                self.players[i].state
            },
            None => PlayerKillState::new(),
        };
        assert(prior == prior_state(m, c.steamid@));
        if candidate.observed_round_kills <= prior.last_observed_round_kills {
            return None;
        }
        let mut state = prior;
        state.last_observed_round_kills = candidate.observed_round_kills;
        let round_kills = state.next_streak(now_ns, reset_after_ns);
        let KillCandidate { steamid, side: _, observed_round_kills: _, weapon, is_headshot } = candidate;
        self.store_player(steamid, state);
        Some(KillTrigger { round_kills, weapon, is_headshot, side })
    }

    /// Decides whether `candidate` is a new kill of the local player, timed by
    /// the tracker's clock. Whether it is accepted does not depend on the
    /// time; the streak length does, through the time the clock gave.
    pub fn try_accept_kill(&mut self, candidate: KillCandidate, reset_after_ns: u64) -> (r: Option<KillTrigger>)
        ensures
            exists|now: u64|
                #![trigger accept_model(old(self)@, candidate, now, reset_after_ns)]
                {
                    &&& final(self)@ == accept_model(old(self)@, candidate, now, reset_after_ns)
                    &&& r matches Some(t) ==> trigger_matches(t, old(self)@, candidate, now, reset_after_ns)
                },
            r is Some <==> kill_accepted(old(self)@, candidate),
    {
        let reading: Nanos = self.clock.now_ns();
        let now: u64 = reading.0;
        let ghost c = candidate;
        let r = self.try_accept_kill_at(candidate, reset_after_ns, now);
        assert(final(self)@ == accept_model(old(self)@, c, now, reset_after_ns));
        r
    }

    /// Starts a new round: every player's kills are forgotten and no kill is
    /// ignored any more.
    pub fn reset_round(&mut self)
        ensures
            final(self)@ == reset_model(old(self)@),
    {
        proof {
            use_type_invariant(&*self);
        }
        let ghost old_players = self.players@;
        let n = self.players.len();
        let mut fresh: Vec<PlayerEntry> = Vec::new();
        let mut i: usize = 0;
        while i < n
            invariant
                n == self.players@.len(),
                old_players == self.players@,
                i <= n,
                fresh@.len() == i,
                forall|j: int|
                    0 <= j < i ==> (#[trigger] fresh@[j]).steamid@ == old_players[j].steamid@ && fresh@[j].state
                        == fresh_kill_state(),
            decreases n - i,
        {
            fresh.push(PlayerEntry { steamid: self.players[i].steamid.clone(), state: PlayerKillState::new() });
            i = i + 1;
        }
        proof {
            assert(keys_distinct(fresh@)) by {
                assert forall|a: int, b: int| 0 <= a < b < fresh@.len() implies (#[trigger] fresh@[a]).steamid@
                    != (#[trigger] fresh@[b]).steamid@ by {
                    assert(old_players[a].steamid@ != old_players[b].steamid@);
                }
            }
            assert forall|k: Seq<char>| #[trigger] has_key(fresh@, k) == has_key(old_players, k) by {
                if has_key(fresh@, k) {
                    let j = choose|j: int| 0 <= j < fresh@.len() && (#[trigger] fresh@[j]).steamid@ == k;
                    assert(old_players[j].steamid@ == k);
                }
                if has_key(old_players, k) {
                    let j = choose|j: int| 0 <= j < old_players.len() && (#[trigger] old_players[j]).steamid@ == k;
                    assert(fresh@[j].steamid@ == k);
                }
            }
            assert forall|k: Seq<char>| players_map(fresh@).contains_key(k) implies players_map(fresh@)[k]
                == fresh_kill_state() by {
                let j = choose|j: int| 0 <= j < fresh@.len() && (#[trigger] fresh@[j]).steamid@ == k;
                lemma_map_lookup(fresh@, j);
            }
            assert(players_map(fresh@) =~= players_map(old_players).map_values(
                |p: PlayerKillState| fresh_kill_state(),
            ));
        }
        self.players = fresh;
        self.suppressed_switch_kills = Vec::new();
        assert(self@.suppressed =~= Set::<(Seq<char>, i32)>::empty());
    }

    /// Records the round kill count of account `steamid` as seen in a report.
    pub fn observe_local_round_kills(&mut self, steamid: &str, round_kills: i32)
        ensures
            final(self)@ == observe_model(old(self)@, steamid@, round_kills),
    {
        proof {
            use_type_invariant(&*self);
        }
        let k: i32 = if round_kills < 0 { 0 } else { round_kills };
        match self.find_player(steamid) {
            Some(i) => {
                proof {
                    lemma_map_lookup(self.players@, i as int);
                }
                if k < self.players[i].state.last_observed_round_kills {
                    let mut st = self.players[i].state;
                    st.reset_round();
                    st.last_observed_round_kills = k;
                    self.store_player(steamid.to_owned(), st);
                }
            },
            None => {
                let mut st = PlayerKillState::new();
                st.last_observed_round_kills = k;
                self.store_player(steamid.to_owned(), st);
            },
        }
    }

    /// Takes in a game state report: learns the local account from the
    /// report's sender and the local player's side and round kills from its
    /// player of that account, and gives the side where it is newly detected.
    pub fn update_from_game_state(&mut self, state: &GameSnapshot) -> (r: Option<Side>)
        ensures
            (final(self)@, r) == update_model(old(self)@, *state),
    {
        proof {
            use_type_invariant(&*self);
        }
        let provider = trim(state.provider_steamid.as_str());
        if provider.is_empty() {
            return None;
        }
        let same = match &self.steamid {
            Some(s) => str_eq(s.as_str(), provider),
            None => false,
        };
        if !same {
            self.steamid = Some(provider.to_owned());
            self.side = None;
        }
        let player = match local_player(state, provider) {
            Some(p) => p,
            None => {
                return None;
            },
        };
        self.observe_local_round_kills(provider, player.round_kills);
        proof {
            use_type_invariant(&*self);
        }
        let detected = side_from_team(player.team);
        let changed = match detected {
            Some(s) => if self.side == Some(s) {
                None
            } else {
                Some(s)
            },
            None => None,
        };
        self.side = detected;
        changed
    }
}


/// A kill reported twice, by two sources or twice by one, is accepted once:
/// after a candidate is accepted, a candidate of the same account at the same
/// round kill count is not.
pub proof fn law_duplicate_kill_accepted_once(
    m: LocalModel,
    c: KillCandidate,
    again: KillCandidate,
    now: u64,
    later: u64,
    reset_after: u64,
    reset_after_again: u64,
)
    requires
        kill_accepted(m, c),
        again.steamid@ == c.steamid@,
        again.observed_round_kills == c.observed_round_kills,
    ensures
        !kill_accepted(accept_model(m, c, now, reset_after), again),
{
    let m1 = accept_model(m, c, now, reset_after);
    assert(m1.players.contains_key(c.steamid@));
    assert(prior_state(m1, again.steamid@).last_observed_round_kills == c.observed_round_kills);
}

/// A kill is only ever accepted for the local account, never for a player
/// being spectated or any other account.
pub proof fn law_other_account_rejected(m: LocalModel, c: KillCandidate)
    requires
        m.steamid != Some(c.steamid@),
    ensures
        !kill_accepted(m, c),
{
}

/// After a new round starts, the local player's first kill is accepted again,
/// with a streak of 1, whatever the previous round held.
pub proof fn law_new_round_accepts_first_kill(m: LocalModel, c: KillCandidate, now: u64, reset_after: u64)
    requires
        m.steamid == Some(c.steamid@),
        c.steamid@.len() > 0,
        c.observed_round_kills > 0,
    ensures
        kill_accepted(reset_model(m), c),
        accepted_state(reset_model(m), c, now, reset_after).streak == 1,
{
    let r = reset_model(m);
    assert(!r.suppressed.contains((c.steamid@, c.observed_round_kills)));
    if r.players.contains_key(c.steamid@) {
        assert(r.players[c.steamid@] == fresh_kill_state());
    }
}

/// After the spectated player switches to another player, that player's kill
/// count at the switch is not taken as a new kill.
pub proof fn law_switch_kill_ignored(
    m: LocalModel,
    previous: PlayerSnapshot,
    current: PlayerSnapshot,
    c: KillCandidate,
)
    requires
        switch_suppresses(previous, current),
        c.steamid@ == current.steamid@,
        c.observed_round_kills == current.round_kills,
    ensures
        !kill_accepted(suppress_model(m, previous, current), c),
{
    assert(suppress_model(m, previous, current).suppressed.contains((c.steamid@, c.observed_round_kills)));
}

/// Accepting or refusing a kill never lifts an ignored kill count: only a new
/// round does.
pub proof fn law_accept_keeps_ignored_kills(m: LocalModel, c: KillCandidate, now: u64, reset_after: u64)
    ensures
        accept_model(m, c, now, reset_after).suppressed == m.suppressed,
        accept_model(m, c, now, reset_after).steamid == m.steamid,
{
}

/// Kill streaks are kept per account: a kill of one account leaves every
/// other account's kill state as it was.
pub proof fn law_streaks_kept_per_account(
    m: LocalModel,
    c: KillCandidate,
    now: u64,
    reset_after: u64,
    other: Seq<char>,
)
    requires
        other != c.steamid@,
    ensures
        accept_model(m, c, now, reset_after).players.contains_key(other) == m.players.contains_key(other),
        m.players.contains_key(other) ==> accept_model(m, c, now, reset_after).players[other]
            == m.players[other],
{
}

/// The largest round kill count seen for an account never goes down when a
/// kill is offered.
pub proof fn law_accept_never_lowers_count(m: LocalModel, c: KillCandidate, now: u64, reset_after: u64, id: Seq<char>)
    requires
        m.players.contains_key(id),
    ensures
        accept_model(m, c, now, reset_after).players.contains_key(id),
        accept_model(m, c, now, reset_after).players[id].last_observed_round_kills
            >= m.players[id].last_observed_round_kills,
{
}

/// Two kills of the local player no further apart than the reset time make
/// the streak one longer.
pub proof fn law_streak_grows_within_window(
    m: LocalModel,
    c1: KillCandidate,
    c2: KillCandidate,
    t1: u64,
    t2: u64,
    reset_after: u64,
)
    requires
        kill_accepted(m, c1),
        c2.steamid@ == c1.steamid@,
        c2.observed_round_kills > c1.observed_round_kills,
        !m.suppressed.contains((c2.steamid@, c2.observed_round_kills)),
        t1 <= t2,
        t2 - t1 <= reset_after,
    ensures
        kill_accepted(accept_model(m, c1, t1, reset_after), c2),
        accepted_state(accept_model(m, c1, t1, reset_after), c2, t2, reset_after).streak == streak_inc(
            accepted_state(m, c1, t1, reset_after).streak,
        ),
{
    let m1 = accept_model(m, c1, t1, reset_after);
    assert(m1.players.contains_key(c1.steamid@));
    assert(prior_state(m1, c2.steamid@) == accepted_state(m, c1, t1, reset_after));
}

/// A kill that comes more than the reset time after the previous one starts
/// the streak again at 1.
pub proof fn law_streak_restarts_after_pause(
    m: LocalModel,
    c1: KillCandidate,
    c2: KillCandidate,
    t1: u64,
    t2: u64,
    reset_after: u64,
)
    requires
        kill_accepted(m, c1),
        c2.steamid@ == c1.steamid@,
        c2.observed_round_kills > c1.observed_round_kills,
        !m.suppressed.contains((c2.steamid@, c2.observed_round_kills)),
        t2 >= t1,
        t2 - t1 > reset_after,
    ensures
        kill_accepted(accept_model(m, c1, t1, reset_after), c2),
        accepted_state(accept_model(m, c1, t1, reset_after), c2, t2, reset_after).streak == 1,
{
    let m1 = accept_model(m, c1, t1, reset_after);
    assert(m1.players.contains_key(c1.steamid@));
    assert(prior_state(m1, c2.steamid@) == accepted_state(m, c1, t1, reset_after));
}

/// A report taken in twice changes nothing the second time, and the second
/// time no side is reported as newly detected.
pub proof fn law_repeated_report_changes_nothing(m: LocalModel, state: GameSnapshot)
    ensures
        update_model(update_model(m, state).0, state) == (update_model(m, state).0, None::<Side>),
{
    let provider = trimmed(state.provider_steamid@);
    let m1 = update_model(m, state).0;
    if provider.len() > 0 {
        assert(with_provider(m1, provider) == m1);
        match player_of(state, provider) {
            None => {},
            Some(p) => {
                let k = clamp_kills(p.round_kills);
                assert(m1.players.contains_key(provider));
                assert(m1.players[provider].last_observed_round_kills <= k);
                assert(observe_model(m1, provider, p.round_kills) == m1);
            },
        }
    }
}

/// The first report that shows the local player sets the baseline: kills at
/// or below the count in that report are not taken as new kills.
pub proof fn law_first_report_sets_baseline(m: LocalModel, state: GameSnapshot, c: KillCandidate)
    requires
        trimmed(state.provider_steamid@).len() > 0,
        player_of(state, trimmed(state.provider_steamid@)) is Some,
        !m.players.contains_key(trimmed(state.provider_steamid@)),
        c.steamid@ == trimmed(state.provider_steamid@),
        c.observed_round_kills <= player_of(state, trimmed(state.provider_steamid@))->0.round_kills,
    ensures
        !kill_accepted(update_model(m, state).0, c),
{
    let provider = trimmed(state.provider_steamid@);
    let m1 = with_provider(m, provider);
    assert(!m1.players.contains_key(provider));
}


/// One thing that can happen to the tracker: a kill is offered (with the time
/// and the reset time), the spectated player switches, a count is seen for an
/// account, a report comes in, or a new round starts.
pub enum TrackerStep {
    Offer(KillCandidate, u64, u64),
    Switch(PlayerSnapshot, PlayerSnapshot),
    Observe(Seq<char>, i32),
    Report(GameSnapshot),
    NewRound,
}

/// What the tracker knows after one step.
pub open spec fn step_model(m: LocalModel, step: TrackerStep) -> LocalModel {
    match step {
        TrackerStep::Offer(c, now, reset_after) => accept_model(m, c, now, reset_after),
        TrackerStep::Switch(previous, current) => suppress_model(m, previous, current),
        TrackerStep::Observe(id, k) => observe_model(m, id, k),
        TrackerStep::Report(state) => update_model(m, state).0,
        TrackerStep::NewRound => reset_model(m),
    }
}

/// What the tracker knows after the steps, in order.
pub open spec fn steps_model(m: LocalModel, steps: Seq<TrackerStep>) -> LocalModel
    decreases steps.len(),
{
    if steps.len() == 0 {
        m
    } else {
        steps_model(step_model(m, steps[0]), steps.drop_first())
    }
}

/// Whether a step keeps the kill count `k` of account `id` as seen: it is no
/// new round, and any count it shows for `id` is at least `k`.
pub open spec fn keeps_count(step: TrackerStep, id: Seq<char>, k: i32) -> bool {
    match step {
        TrackerStep::NewRound => false,
        TrackerStep::Observe(i, c) => i != id || clamp_kills(c) >= k,
        TrackerStep::Report(state) => {
            let provider = trimmed(state.provider_steamid@);
            provider != id || match player_of(state, provider) {
                Some(p) => clamp_kills(p.round_kills) >= k,
                None => true,
            }
        },
        _ => true,
    }
}

/// The tracker has seen at least `k` kills of account `id` this round.
pub open spec fn count_seen(m: LocalModel, id: Seq<char>, k: i32) -> bool {
    m.players.contains_key(id) && m.players[id].last_observed_round_kills >= k
}

proof fn lemma_step_keeps_count(m: LocalModel, step: TrackerStep, id: Seq<char>, k: i32)
    requires
        count_seen(m, id, k),
        keeps_count(step, id, k),
    ensures
        count_seen(step_model(m, step), id, k),
{
    match step {
        TrackerStep::Report(state) => {
            let provider = trimmed(state.provider_steamid@);
            if provider.len() > 0 {
                let m1 = with_provider(m, provider);
                assert(m1.players == m.players);
            }
        },
        _ => {},
    }
}

proof fn lemma_steps_keep_count(m: LocalModel, steps: Seq<TrackerStep>, id: Seq<char>, k: i32)
    requires
        count_seen(m, id, k),
        forall|i: int| 0 <= i < steps.len() ==> keeps_count(#[trigger] steps[i], id, k),
    ensures
        count_seen(steps_model(m, steps), id, k),
    decreases steps.len(),
{
    if steps.len() > 0 {
        assert(keeps_count(steps[0], id, k));
        lemma_step_keeps_count(m, steps[0], id, k);
        assert forall|i: int| 0 <= i < steps.drop_first().len() implies keeps_count(
            #[trigger] steps.drop_first()[i],
            id,
            k,
        ) by {
            assert(steps.drop_first()[i] == steps[i + 1]);
        }
        lemma_steps_keep_count(step_model(m, steps[0]), steps.drop_first(), id, k);
    }
}

/// A kill reported by both sources fires once: after a kill of an account at
/// round kill count `k` is accepted, no later report of that account at `k`
/// or below is accepted, whatever comes in between (other offers, refused
/// reports, switches of the spectated player, reports and sightings of counts
/// of at least `k`), until a new round.
pub proof fn law_kill_fires_once_until_new_round(
    m: LocalModel,
    c: KillCandidate,
    now: u64,
    reset_after: u64,
    steps: Seq<TrackerStep>,
    again: KillCandidate,
)
    requires
        kill_accepted(m, c),
        forall|i: int| 0 <= i < steps.len() ==> keeps_count(#[trigger] steps[i], c.steamid@, c.observed_round_kills),
        again.steamid@ == c.steamid@,
        again.observed_round_kills <= c.observed_round_kills,
    ensures
        !kill_accepted(steps_model(accept_model(m, c, now, reset_after), steps), again),
{
    let m1 = accept_model(m, c, now, reset_after);
    assert(count_seen(m1, c.steamid@, c.observed_round_kills));
    lemma_steps_keep_count(m1, steps, c.steamid@, c.observed_round_kills);
}

/// The kill streak follows the reset time: of two kills of the local account
/// accepted one after the other at times `t1 <= t2`, the second starts a new
/// streak of 1 where it comes more than `reset_after` after the first, and
/// counts one more than the first otherwise (held at `u32::MAX`).
pub proof fn law_streak_follows_reset_time(
    m: LocalModel,
    c1: KillCandidate,
    t1: u64,
    first: KillTrigger,
    c2: KillCandidate,
    t2: u64,
    second: KillTrigger,
    reset_after: u64,
)
    requires
        kill_accepted(m, c1),
        trigger_matches(first, m, c1, t1, reset_after),
        kill_accepted(accept_model(m, c1, t1, reset_after), c2),
        trigger_matches(second, accept_model(m, c1, t1, reset_after), c2, t2, reset_after),
        c2.steamid@ == c1.steamid@,
        t1 <= t2,
    ensures
        t2 - t1 > reset_after ==> second.round_kills == 1,
        t2 - t1 <= reset_after && first.round_kills < u32::MAX ==> second.round_kills == first.round_kills + 1,
        t2 - t1 <= reset_after && first.round_kills == u32::MAX ==> second.round_kills == u32::MAX,
{
    let m1 = accept_model(m, c1, t1, reset_after);
    assert(m1.players.contains_key(c1.steamid@));
    assert(prior_state(m1, c2.steamid@) == accepted_state(m, c1, t1, reset_after));
}

} // verus!
