use standings::extract::extract_rows;
use standings::parse::{columns, split_bars, trim_spaces};
use standings::gophermap::build_gophermap;
use standings::model::{ApiResponse, Competition, Standing, StandingTable, Team};
use standings::registry::competitions;
use standings::table::{create_table, header_line};

#[test]
fn header_round_trip_matches_declared_column_order() {
    // Formatting, then re-parsing the header line, must give back the
    // fixed declared column order.
    let line = header_line();
    let labels: Vec<&str> = line.trim_end_matches('\n').split('|').map(|f| f.trim()).collect();
    assert_eq!(labels, ["Pos", "Team", "GP", "PTS", "W", "D", "L", "G", "GA", "GD"]);
}

#[test]
fn verified_reparse_gives_declared_order() {
    let line = header_line();
    let body = line.trim_end_matches('\n');
    let cols = columns(body);
    let expected: Vec<Vec<char>> = ["Pos", "Team", "GP", "PTS", "W", "D", "L", "G", "GA", "GD"]
        .iter()
        .map(|s| s.chars().collect())
        .collect();
    assert_eq!(cols, expected);
}

#[test]
fn split_and_trim_behave_on_plain_chunks() {
    let fields = split_bars("a | bc|d");
    let fields: Vec<String> = fields.iter().map(|f| f.iter().collect()).collect();
    assert_eq!(fields, ["a ", " bc", "d"]);
    let trimmed: String = trim_spaces("  padded out  ".chars().collect()).iter().collect();
    assert_eq!(trimmed, "padded out");
}

fn standing_from_json(v: &serde_json::Value) -> Standing {
    Standing {
        position: v["position"].as_u64().unwrap() as u8,
        team: Team {
            id: v["team"]["id"].as_u64().unwrap() as u16,
            name: v["team"]["name"].as_str().unwrap().to_string(),
        },
        played_games: v["playedGames"].as_u64().unwrap() as u8,
        won: v["won"].as_u64().unwrap() as u8,
        draw: v["draw"].as_u64().unwrap() as u8,
        lost: v["lost"].as_u64().unwrap() as u8,
        points: v["points"].as_u64().unwrap() as u8,
        goals_for: v["goalsFor"].as_u64().unwrap() as u8,
        goals_against: v["goalsAgainst"].as_u64().unwrap() as u8,
        goal_difference: v["goalDifference"].as_i64().unwrap() as i8,
    }
}

const FIXTURE_2021: &str = r#"{
  "standings": [
    { "table": [
      { "position": 1, "team": { "id": 99, "name": "Home Only" },
        "playedGames": 19, "won": 12, "draw": 4, "lost": 3, "points": 40,
        "goalsFor": 37, "goalsAgainst": 18, "goalDifference": 19 }
    ] },
    { "table": [
      { "position": 1, "team": { "id": 64, "name": "Liverpool" },
        "playedGames": 38, "won": 32, "draw": 3, "lost": 3, "points": 99,
        "goalsFor": 85, "goalsAgainst": 33, "goalDifference": 52 },
      { "position": 2, "team": { "id": 65, "name": "Manchester City" },
        "playedGames": 38, "won": 26, "draw": 3, "lost": 9, "points": 81,
        "goalsFor": 102, "goalsAgainst": 35, "goalDifference": 67 }
    ] }
  ]
}"#;

#[test]
fn end_to_end_fixture_for_competition_2021() {
    // Decode the canned response, extract the overall table, format it,
    // and check the documented line layout of the 2021 output.
    let root: serde_json::Value = serde_json::from_str(FIXTURE_2021).unwrap();
    let tables: Vec<StandingTable> = root["standings"]
        .as_array()
        .unwrap()
        .iter()
        .map(|t| StandingTable {
            table: t["table"].as_array().unwrap().iter().map(standing_from_json).collect(),
        })
        .collect();
    let rows = extract_rows(ApiResponse::Nested(tables)).unwrap();
    assert_eq!(rows.len(), 2);
    assert_eq!(rows[0].team.name, "Liverpool");

    let comp = Competition { id: 2021, name: "Premier League".to_string() };
    let table = create_table(&rows, &comp);
    let lines: Vec<&str> = table.split('\n').collect();
    // The second line is the fixed header, the third the first team's
    // row with the documented paddings.
    assert_eq!(format!("{}\n", lines[1]), header_line());
    let expected_first = format!(
        "{0: <3} | {1: <26} | {2: <2} | {3: <3} | {4: <1} | {5: <1} | {6: <1} | {7: <1} | {8: <2} | {9: <2}",
        1, "Liverpool", 38, 99, 32, 3, 3, 85, 33, 52
    );
    assert_eq!(lines[2], expected_first);
}

#[test]
fn gophermap_built_around_the_clock_is_well_formed() {
    let comps = competitions();
    let map = build_gophermap(&comps);
    assert!(map.contains("Last updated "));
    assert!(map.contains("0Premier League\t2021.txt\n"));
    assert!(map.ends_with("\r\n."));
}
