//! The schedule aggregate: every game of one business date, with the team
//! roster resolved into the games, in deterministic display order.

use vstd::prelude::*;
use vstd::relations::sorted_by;

use crate::errors::StreamError;
use crate::game::Game;
use crate::model::{Date, Schedule, ScheduleGame, Team};
use crate::types::Sport;

verus! {

/// Byte-for-byte lexicographic order on character sequences, by code point.
pub open spec fn lex_le(a: Seq<char>, b: Seq<char>) -> bool
    decreases a.len(),
{
    if a.len() == 0 {
        true
    } else if b.len() == 0 {
        false
    } else if a[0] < b[0] {
        true
    } else if b[0] < a[0] {
        false
    } else {
        lex_le(a.subrange(1, a.len() as int), b.subrange(1, b.len() as int))
    }
}

proof fn lemma_lex_total(a: Seq<char>, b: Seq<char>)
    ensures
        lex_le(a, b) || lex_le(b, a),
    decreases a.len(),
{
    if a.len() > 0 && b.len() > 0 && !(a[0] < b[0]) && !(b[0] < a[0]) {
        lemma_lex_total(a.subrange(1, a.len() as int), b.subrange(1, b.len() as int));
    }
}

proof fn lemma_lex_trans(a: Seq<char>, b: Seq<char>, c: Seq<char>)
    requires
        lex_le(a, b),
        lex_le(b, c),
    ensures
        lex_le(a, c),
    decreases a.len(),
{
    if a.len() > 0 && b.len() > 0 && c.len() > 0 {
        if !(a[0] < b[0]) && !(b[0] < a[0]) && !(b[0] < c[0]) && !(c[0] < b[0]) {
            lemma_lex_trans(
                a.subrange(1, a.len() as int),
                b.subrange(1, b.len() as int),
                c.subrange(1, c.len() as int),
            );
        }
    }
}

/// Character-wise comparison of two strings in `lex_le` order.
fn lex_le_check(a: &str, b: &str) -> (r: bool)
    ensures
        r == lex_le(a@, b@),
{
    let a_len = a.unicode_len();
    let b_len = b.unicode_len();
    proof {
        assert(a@.subrange(0, a_len as int) =~= a@);
        assert(b@.subrange(0, b_len as int) =~= b@);
    }
    let mut i: usize = 0;
    loop
        invariant
            a_len == a@.len(),
            b_len == b@.len(),
            a@.len() <= usize::MAX,
            b@.len() <= usize::MAX,
            i <= a_len,
            i <= b_len,
            lex_le(a@, b@) == lex_le(
                a@.subrange(i as int, a_len as int),
                b@.subrange(i as int, b_len as int),
            ),
        decreases a_len - i,
    {
        let ghost at = a@.subrange(i as int, a_len as int);
        let ghost bt = b@.subrange(i as int, b_len as int);
        if i >= a_len {
            proof {
                assert(at.len() == 0);
            }
            return true;
        }
        if i >= b_len {
            proof {
                assert(bt.len() == 0 && at.len() > 0);
            }
            return false;
        }
        let ca = a.get_char(i);
        let cb = b.get_char(i);
        if ca < cb {
            return true;
        }
        if cb < ca {
            return false;
        }
        proof {
            assert(at.subrange(1, at.len() as int) =~= a@.subrange(i + 1, a_len as int));
            assert(bt.subrange(1, bt.len() as int) =~= b@.subrange(i + 1, b_len as int));
        }
        i += 1;
    }
}

/// Display order of games: scheduled start first, away-team name as the tie
/// breaker.
pub open spec fn game_le(a: Game, b: Game) -> bool {
    a.game_date < b.game_date || (a.game_date == b.game_date && lex_le(
        a.away_team.name@,
        b.away_team.name@,
    ))
}

/// `game_le` as a relation value, for `sorted_by`.
pub open spec fn game_le_fn() -> spec_fn(Game, Game) -> bool {
    |a: Game, b: Game| game_le(a, b)
}

proof fn lemma_game_le_total(a: Game, b: Game)
    ensures
        game_le(a, b) || game_le(b, a),
{
    if a.game_date == b.game_date {
        lemma_lex_total(a.away_team.name@, b.away_team.name@);
    }
}

proof fn lemma_game_le_trans(a: Game, b: Game, c: Game)
    requires
        game_le(a, b),
        game_le(b, c),
    ensures
        game_le(a, c),
{
    if a.game_date == b.game_date && b.game_date == c.game_date {
        lemma_lex_trans(a.away_team.name@, b.away_team.name@, c.away_team.name@);
    }
}

/// Comparison of two games in display order.
fn game_le_check(a: &Game, b: &Game) -> (r: bool)
    ensures
        r == game_le(*a, *b),
{
    if a.game_date < b.game_date {
        true
    } else if a.game_date == b.game_date {
        lex_le_check(a.away_team.name.as_str(), b.away_team.name.as_str())
    } else {
        false
    }
}

/// Sort games into display order: by start time ascending, then away-team
/// name ascending. The result holds exactly the input games.
fn sort_games(v: Vec<Game>) -> (r: Vec<Game>)
    ensures
        sorted_by(r@, game_le_fn()),
        r@.to_multiset() == v@.to_multiset(),
        r@.len() == v@.len(),
{
    broadcast use vstd::seq_lib::group_to_multiset_ensures;

    let ghost input = v@;
    let mut work = v;
    let mut out: Vec<Game> = Vec::new();
    proof {
        assert(out@.to_multiset().add(work@.to_multiset()) =~= input.to_multiset());
    }
    while work.len() > 0
        invariant
            out@.to_multiset().add(work@.to_multiset()) == input.to_multiset(),
            out@.len() + work@.len() == input.len(),
            sorted_by(out@, game_le_fn()),
            forall|i: int, j: int|
                0 <= i < out@.len() && 0 <= j < work@.len() ==> #[trigger] game_le(
                    out@[i],
                    work@[j],
                ),
        decreases work@.len(),
    {
        let mut mi: usize = 0;
        let mut k: usize = 1;
        proof {
            lemma_game_le_total(work@[0], work@[0]);
        }
        while k < work.len()
            invariant
                work@.len() > 0,
                mi < work@.len(),
                k <= work@.len(),
                forall|l: int| 0 <= l < k ==> game_le(work@[mi as int], #[trigger] work@[l]),
            decreases work@.len() - k,
        {
            if !game_le_check(&work[mi], &work[k]) {
                proof {
                    lemma_game_le_total(work@[mi as int], work@[k as int]);
                    assert forall|l: int| 0 <= l < k + 1 implies game_le(
                        work@[k as int],
                        #[trigger] work@[l],
                    ) by {
                        if l < k {
                            lemma_game_le_trans(work@[k as int], work@[mi as int], work@[l]);
                        } else if l == k {
                            lemma_game_le_total(work@[k as int], work@[k as int]);
                        }
                    }
                }
                mi = k;
            }
            k += 1;
        }
        let ghost work0 = work@;
        let ghost out0 = out@;
        let g = work.remove(mi);
        proof {
            work0.to_multiset_ensures();
            assert(work@ == work0.remove(mi as int));
            assert(work@.to_multiset() =~= work0.to_multiset().remove(g));
            assert(work0.to_multiset().count(g) > 0);
        }
        out.push(g);
        proof {
            out0.to_multiset_ensures();
            assert(out@ == out0.push(g));
            assert(out@.to_multiset() =~= out0.to_multiset().insert(g));
            assert(out@.to_multiset().add(work@.to_multiset()) =~= input.to_multiset());
            assert forall|i: int, j: int|
                0 <= i < out@.len() && 0 <= j < work@.len() implies #[trigger] game_le(
                out@[i],
                work@[j],
            ) by {
                let wj = if j < mi {
                    j
                } else {
                    j + 1
                };
                assert(work@[j] == work0[wj]);
                if i < out0.len() {
                    assert(game_le(out0[i], work0[wj]));
                } else {
                    assert(out@[i] == g);
                    assert(game_le(work0[mi as int], work0[wj]));
                }
            }
            assert forall|i: int, j: int| 0 <= i < j < out@.len() implies #[trigger] game_le_fn()(
                out@[i],
                out@[j],
            ) by {
                if j == out@.len() - 1 {
                    assert(out@[j] == g);
                    assert(game_le(out0[i], work0[mi as int]));
                } else {
                    assert(game_le_fn()(out0[i], out0[j]));
                }
            }
        }
    }
    out
}

/// The first position in `teams`, scanning from `i`, of the team with a
/// given id; -1 when there is none.
pub open spec fn first_team_idx(teams: Seq<Team>, id: u32, i: int) -> int
    decreases teams.len() - i,
{
    if i < 0 || i >= teams.len() {
        -1
    } else if teams[i].id == id {
        i
    } else {
        first_team_idx(teams, id, i + 1)
    }
}

proof fn lemma_first_team_idx_at(teams: Seq<Team>, id: u32, i: int, m: int)
    requires
        0 <= i <= m < teams.len(),
        teams[m].id == id,
        forall|l: int| i <= l < m ==> teams[l].id != id,
    ensures
        first_team_idx(teams, id, i) == m,
    decreases m - i,
{
    if i < m {
        lemma_first_team_idx_at(teams, id, i + 1, m);
    }
}

proof fn lemma_first_team_idx_none(teams: Seq<Team>, id: u32, i: int)
    requires
        0 <= i,
        forall|l: int| i <= l < teams.len() ==> teams[l].id != id,
    ensures
        first_team_idx(teams, id, i) == -1,
    decreases teams.len() - i,
{
    if i < teams.len() {
        lemma_first_team_idx_none(teams, id, i + 1);
    }
}

/// The first team in the roster with a given id.
fn find_team<'a>(teams: &'a Vec<Team>, id: u32) -> (r: Option<&'a Team>)
    ensures
        match r {
            Some(t) => first_team_idx(teams@, id, 0) >= 0 && *t == teams@[first_team_idx(
                teams@,
                id,
                0,
            )],
            None => first_team_idx(teams@, id, 0) == -1,
        },
{
    let mut i: usize = 0;
    while i < teams.len()
        invariant
            i <= teams@.len(),
            forall|l: int| 0 <= l < i ==> teams@[l].id != id,
        decreases teams@.len() - i,
    {
        if teams[i].id == id {
            proof {
                lemma_first_team_idx_at(teams@, id, 0, i as int);
            }
            return Some(&teams[i]);
        }
        i += 1;
    }
    proof {
        lemma_first_team_idx_none(teams@, id, 0);
    }
    None
}

/// The game the schedule aggregate builds for one schedule entry: identity
/// fields from the entry, the sides resolved against the roster by their
/// team ids.
pub open spec fn spec_built_game(
    sport: Sport,
    host: String,
    selected_date: Date,
    teams: Seq<Team>,
    g: ScheduleGame,
) -> Game {
    Game {
        sport,
        host,
        game_pk: g.game_pk,
        game_date: g.date,
        selected_date,
        streams: None,
        home_team: teams[first_team_idx(teams, g.teams.home.detail.id, 0)],
        away_team: teams[first_team_idx(teams, g.teams.away.detail.id, 0)],
        game_content: None,
    }
}

/// Every game of the schedule names team ids the roster resolves.
pub open spec fn all_teams_resolve(teams: Seq<Team>, games: Seq<ScheduleGame>) -> bool {
    forall|i: int|
        0 <= i < games.len() ==> first_team_idx(teams, (#[trigger] games[i]).teams.home.detail.id, 0)
            >= 0 && first_team_idx(teams, games[i].teams.away.detail.id, 0) >= 0
}

/// A game of the aggregate matches the queried abbreviation: either side's
/// team carries it.
pub open spec fn game_matches_abbrev(g: Game, abbrev: Seq<char>) -> bool {
    g.home_team.spec_has_abbreviation(abbrev) || g.away_team.spec_has_abbreviation(abbrev)
}

/// All games of one business date, teams resolved, in display order.
#[derive(Debug)]
pub struct LazyStream {
    pub sport: Sport,
    pub host: String,
    pub games: Vec<Game>,
    pub teams: Vec<Team>,
    pub schedule_date: Date,
}

impl LazyStream {
    /// Build the aggregate from a fetched schedule and team roster: each
    /// scheduled game is resolved against the roster and the result is
    /// sorted into display order. Fails with `ScheduleUnavailable` exactly
    /// when some game names a team id the roster does not hold.
    pub fn new(sport: Sport, host: String, schedule: Schedule, teams: Vec<Team>) -> (r: Result<
        LazyStream,
        StreamError,
    >)
        ensures
            match r {
                Ok(ls) => all_teams_resolve(teams@, schedule.games@) && ls.sport == sport
                    && ls.host == host && ls.teams == teams && ls.schedule_date == schedule.date
                    && ls.games@.len() == schedule.games@.len() && sorted_by(
                    ls.games@,
                    game_le_fn(),
                ) && ls.games@.to_multiset() == Seq::new(
                    schedule.games@.len(),
                    |i: int| spec_built_game(sport, host, schedule.date, teams@, schedule.games@[i]),
                ).to_multiset(),
                Err(e) => e == StreamError::ScheduleUnavailable && !all_teams_resolve(
                    teams@,
                    schedule.games@,
                ),
            },
    {
        let ghost built_seq = Seq::new(
            schedule.games@.len(),
            |i: int| spec_built_game(sport, host, schedule.date, teams@, schedule.games@[i]),
        );
        let mut built: Vec<Game> = Vec::new();
        let n = schedule.games.len();
        let mut i: usize = 0;
        while i < n
            invariant
                n == schedule.games@.len(),
                i <= n,
                built_seq == Seq::new(
                    schedule.games@.len(),
                    |k: int| spec_built_game(sport, host, schedule.date, teams@, schedule.games@[k]),
                ),
                built@ == built_seq.subrange(0, i as int),
                forall|k: int|
                    0 <= k < i ==> first_team_idx(
                        teams@,
                        (#[trigger] schedule.games@[k]).teams.home.detail.id,
                        0,
                    ) >= 0 && first_team_idx(teams@, schedule.games@[k].teams.away.detail.id, 0)
                        >= 0,
            decreases n - i,
        {
            let g = &schedule.games[i];
            let home = match find_team(&teams, g.teams.home.detail.id) {
                Some(t) => t.clone(),
                None => {
                    return Err(StreamError::ScheduleUnavailable);
                },
            };
            let away = match find_team(&teams, g.teams.away.detail.id) {
                Some(t) => t.clone(),
                None => {
                    return Err(StreamError::ScheduleUnavailable);
                },
            };
            let game = Game::new(
                sport,
                host.clone(),
                g.game_pk,
                g.date,
                schedule.date,
                home,
                away,
            );
            built.push(game);
            proof {
                assert(built@ =~= built_seq.subrange(0, i + 1));
            }
            i += 1;
        }
        proof {
            assert(built@ =~= built_seq);
        }
        let games = sort_games(built);
        Ok(LazyStream { sport, host, games, teams, schedule_date: schedule.date })
    }

    /// The business date the schedule was loaded for.
    pub fn date(&self) -> (r: Date)
        ensures
            r == self.schedule_date,
    {
        self.schedule_date
    }

    /// The games of the date, in display order.
    pub fn games(&self) -> (r: &Vec<Game>)
        ensures
            *r == self.games,
    {
        &self.games
    }

    /// The games of the date, for in-place resolution. Only the games may
    /// change through the returned reference.
    pub fn games_mut(&mut self) -> (r: &mut Vec<Game>)
        ensures
            *r == old(self).games,
            final(self).games == *final(r),
            final(self).sport == old(self).sport,
            final(self).host == old(self).host,
            final(self).teams == old(self).teams,
            final(self).schedule_date == old(self).schedule_date,
    {
        &mut self.games
    }

    /// Check an abbreviation against the loaded roster, independent of
    /// whether a game exists for it today. Fails with `UnknownTeam` exactly
    /// when no team in the roster carries the abbreviation.
    pub fn check_team_abbrev(&self, team_abbrev: &str) -> (r: Result<(), StreamError>)
        ensures
            r is Ok <==> exists|i: int|
                0 <= i < self.teams@.len() && (#[trigger] self.teams@[i]).spec_has_abbreviation(
                    team_abbrev@,
                ),
            r is Err ==> r == Err::<(), StreamError>(StreamError::UnknownTeam),
    {
        let n = self.teams.len();
        let mut i: usize = 0;
        while i < n
            invariant
                n == self.teams@.len(),
                i <= n,
                forall|l: int|
                    0 <= l < i ==> !(#[trigger] self.teams@[l]).spec_has_abbreviation(
                        team_abbrev@,
                    ),
            decreases n - i,
        {
            if self.teams[i].has_abbreviation(team_abbrev) {
                return Ok(());
            }
            i += 1;
        }
        Err(StreamError::UnknownTeam)
    }

    /// The first game, in display order, either of whose teams carries the
    /// abbreviation exactly; no partial matching.
    pub fn game_with_team_abbrev(&self, team_abbrev: &str) -> (r: Option<&Game>)
        ensures
            match r {
                Some(g) => exists|i: int|
                    0 <= i < self.games@.len() && *g == self.games@[i] && game_matches_abbrev(
                        #[trigger] self.games@[i],
                        team_abbrev@,
                    ) && forall|l: int|
                        0 <= l < i ==> !game_matches_abbrev(#[trigger] self.games@[l], team_abbrev@),
                None => forall|l: int|
                    0 <= l < self.games@.len() ==> !game_matches_abbrev(
                        #[trigger] self.games@[l],
                        team_abbrev@,
                    ),
            },
    {
        let n = self.games.len();
        let mut i: usize = 0;
        while i < n
            invariant
                n == self.games@.len(),
                i <= n,
                forall|l: int|
                    0 <= l < i ==> !game_matches_abbrev(#[trigger] self.games@[l], team_abbrev@),
            decreases n - i,
        {
            let g = &self.games[i];
            if g.home_team.has_abbreviation(team_abbrev) || g.away_team.has_abbreviation(
                team_abbrev,
            ) {
                return Some(&self.games[i]);
            }
            i += 1;
        }
        None
    }

    /// Remove and return the first game, in display order, either of whose
    /// teams carries the abbreviation; the caller takes ownership to drive
    /// its resolution.
    pub fn take_game_with_team_abbrev(&mut self, team_abbrev: &str) -> (r: Option<Game>)
        ensures
            final(self).sport == old(self).sport,
            final(self).host == old(self).host,
            final(self).teams == old(self).teams,
            final(self).schedule_date == old(self).schedule_date,
            match r {
                Some(g) => exists|i: int|
                    0 <= i < old(self).games@.len() && g == old(self).games@[i]
                        && game_matches_abbrev(#[trigger] old(self).games@[i], team_abbrev@) && (
                    forall|l: int|
                        0 <= l < i ==> !game_matches_abbrev(
                            #[trigger] old(self).games@[l],
                            team_abbrev@,
                        )) && final(self).games@ == old(self).games@.remove(i),
                None => final(self).games == old(self).games && forall|l: int|
                    0 <= l < old(self).games@.len() ==> !game_matches_abbrev(
                        #[trigger] old(self).games@[l],
                        team_abbrev@,
                    ),
            },
    {
        let n = self.games.len();
        let mut i: usize = 0;
        while i < n
            invariant
                n == self.games@.len(),
                i <= n,
                *self == *old(self),
                forall|l: int|
                    0 <= l < i ==> !game_matches_abbrev(#[trigger] self.games@[l], team_abbrev@),
            decreases n - i,
        {
            let matches_here = {
                let g = &self.games[i];
                g.home_team.has_abbreviation(team_abbrev) || g.away_team.has_abbreviation(
                    team_abbrev,
                )
            };
            if matches_here {
                let g = self.games.remove(i);
                return Some(g);
            }
            i += 1;
        }
        None
    }
}

} // verus!
