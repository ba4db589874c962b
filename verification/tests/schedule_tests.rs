use lazystream::errors::StreamError;
use lazystream::model::{
    Date, GameContentEditorial, GameContentMedia, GameContentResponse, Schedule, ScheduleGame,
    ScheduleGameTeam, ScheduleGameTeamDetail, ScheduleGameTeams, Team,
};
use lazystream::schedule::LazyStream;
use lazystream::types::Sport;

fn team(id: u32, name: &str, abbrev: &str) -> Team {
    Team {
        id,
        name: name.to_string(),
        link: String::new(),
        abbreviation: Some(abbrev.to_string()),
        team_name: name.to_string(),
        location_name: None,
        first_year_of_play: None,
        short_name: None,
        active: true,
    }
}

fn sched_game(game_pk: u64, date: i64, home_id: u32, away_id: u32) -> ScheduleGame {
    ScheduleGame {
        game_pk,
        link: String::new(),
        date,
        game_type: "R".to_string(),
        season: "20192020".to_string(),
        teams: ScheduleGameTeams {
            away: ScheduleGameTeam {
                score: None,
                detail: ScheduleGameTeamDetail { id: away_id, name: String::new(), link: String::new() },
            },
            home: ScheduleGameTeam {
                score: None,
                detail: ScheduleGameTeamDetail { id: home_id, name: String::new(), link: String::new() },
            },
        },
    }
}

fn roster() -> Vec<Team> {
    vec![
        team(1, "Avalanche", "COL"),
        team(2, "Bruins", "BOS"),
        team(3, "Canucks", "VAN"),
        team(4, "Ducks", "ANA"),
    ]
}

fn schedule() -> Schedule {
    Schedule {
        date: Date { year: 2020, month: 3, day: 1 },
        games: vec![
            // Later start first, to exercise the sort.
            sched_game(100, 2000, 1, 2),
            sched_game(101, 1000, 3, 4),
            // Same start as game 100; away team name decides the order:
            // "Avalanche" < "Bruins".
            sched_game(102, 2000, 2, 1),
        ],
    }
}

#[test]
fn new_resolves_teams_and_sorts() {
    let ls = LazyStream::new(
        Sport::Nhl,
        "http://provider.example".to_string(),
        schedule(),
        roster(),
    )
    .unwrap();
    assert_eq!(ls.date(), Date { year: 2020, month: 3, day: 1 });
    let games = ls.games();
    assert_eq!(games.len(), 3);
    // Earliest start first.
    assert_eq!(games[0].game_pk, 101);
    // Equal starts tie-break on away-team name ascending.
    assert_eq!(games[1].game_pk, 102);
    assert_eq!(games[2].game_pk, 100);
    // Games hold resolved teams, not ids.
    assert_eq!(games[0].home_team.id, 3);
    assert_eq!(games[0].away_team.id, 4);
    assert_eq!(games[0].home_team.abbreviation.as_deref(), Some("VAN"));
}

#[test]
fn new_fails_on_unresolvable_team_id() {
    let mut sched = schedule();
    sched.games.push(sched_game(103, 3000, 1, 99));
    let r = LazyStream::new(
        Sport::Nhl,
        "http://provider.example".to_string(),
        sched,
        roster(),
    );
    assert!(matches!(r, Err(StreamError::ScheduleUnavailable)));
}

#[test]
fn check_team_abbrev_against_roster_only() {
    let ls = LazyStream::new(
        Sport::Nhl,
        "http://provider.example".to_string(),
        // Empty schedule: the loaded roster alone decides.
        Schedule { date: Date { year: 2020, month: 3, day: 1 }, games: vec![] },
        roster(),
    )
    .unwrap();
    assert!(ls.check_team_abbrev("ANA").is_ok());
    assert_eq!(ls.check_team_abbrev("ZZZ"), Err(StreamError::UnknownTeam));
    // Exact matching only.
    assert_eq!(ls.check_team_abbrev("AN"), Err(StreamError::UnknownTeam));
}

#[test]
fn game_with_team_abbrev_first_in_display_order() {
    let ls = LazyStream::new(
        Sport::Nhl,
        "http://provider.example".to_string(),
        schedule(),
        roster(),
    )
    .unwrap();
    // COL plays in games 100 (home) and 102 (away); 102 sorts first.
    let g = ls.game_with_team_abbrev("COL").unwrap();
    assert_eq!(g.game_pk, 102);
    assert!(ls.game_with_team_abbrev("ZZZ").is_none());
}

#[test]
fn games_mut_allows_in_place_bulk_work() {
    let mut ls = LazyStream::new(
        Sport::Nhl,
        "http://provider.example".to_string(),
        schedule(),
        roster(),
    )
    .unwrap();
    // A bulk caller walks every game and feeds it content in place.
    for game in ls.games_mut().iter_mut() {
        if game.needs_game_content() {
            game.set_game_content(GameContentResponse {
                editorial: GameContentEditorial { preview: None },
                media: GameContentMedia { epg: None },
            });
        }
    }
    assert!(ls.games().iter().all(|g| !g.needs_game_content()));
}

#[test]
fn take_game_removes_it_from_the_list() {
    let mut ls = LazyStream::new(
        Sport::Nhl,
        "http://provider.example".to_string(),
        schedule(),
        roster(),
    )
    .unwrap();
    let g = ls.take_game_with_team_abbrev("VAN").unwrap();
    assert_eq!(g.game_pk, 101);
    assert_eq!(ls.games().len(), 2);
    assert!(ls.take_game_with_team_abbrev("VAN").is_none());
}
