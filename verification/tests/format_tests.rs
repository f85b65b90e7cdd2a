use standings::model::{Competition, Standing, Team};
use standings::numfmt::{i8_to_string, u16_to_string, u8_to_string};
use standings::table::{create_table, header_line, pad, row_line, termination_line};

fn sample_row() -> Standing {
    Standing {
        position: 1,
        team: Team { id: 57, name: "Arsenal".to_string() },
        played_games: 38,
        won: 26,
        draw: 9,
        lost: 3,
        points: 87,
        goals_for: 91,
        goals_against: 29,
        goal_difference: 62,
    }
}

#[test]
fn header_line_content() {
    let expected = format!(
        "{0: <3} | {1: <26} | {2: <2} | {3: <3} | {4: <1} | {5: <1} | {6: <1} | {7: <1} | {8: <2} | {9: <2}\n",
        "Pos", "Team", "GP", "PTS", "W", "D", "L", "G", "GA", "GD"
    );
    assert_eq!(header_line(), expected);
}

#[test]
fn row_line_matches_fixed_widths() {
    let row = sample_row();
    let expected = format!(
        "{0: <3} | {1: <26} | {2: <2} | {3: <3} | {4: <1} | {5: <1} | {6: <1} | {7: <1} | {8: <2} | {9: <2}\n",
        1, "Arsenal", 38, 87, 26, 9, 3, 91, 29, 62
    );
    assert_eq!(row_line(&row), expected);
}

#[test]
fn row_line_negative_goal_difference() {
    let mut row = sample_row();
    row.goal_difference = -17;
    let line = row_line(&row);
    assert!(line.ends_with("| -17\n"));
}

#[test]
fn pad_pads_short_values_to_width() {
    assert_eq!(pad("ab", 5), "ab   ");
    assert_eq!(pad("", 3), "   ");
    assert_eq!(pad("abc", 3), "abc");
}

#[test]
fn pad_never_truncates_wide_values() {
    // A value wider than the column overflows the alignment instead of
    // being cut down.
    assert_eq!(pad("abcdef", 3), "abcdef");
    let long_name = "A Very Long Football Club Name Indeed";
    assert!(long_name.len() > 26);
    let mut row = sample_row();
    row.team.name = long_name.to_string();
    let line = row_line(&row);
    assert!(line.contains(long_name));
    let field = line.split('|').nth(1).unwrap();
    assert!(field.len() > 26);
}

#[test]
fn number_rendering_exact() {
    assert_eq!(u8_to_string(0), "0");
    assert_eq!(u8_to_string(7), "7");
    assert_eq!(u8_to_string(255), "255");
    assert_eq!(u16_to_string(2021), "2021");
    assert_eq!(u16_to_string(65535), "65535");
    assert_eq!(i8_to_string(62), "62");
    assert_eq!(i8_to_string(-5), "-5");
    assert_eq!(i8_to_string(-128), "-128");
    assert_eq!(i8_to_string(0), "0");
}

#[test]
fn termination_line_content() {
    assert_eq!(termination_line(), "\r\n.");
}

#[test]
fn table_has_one_header_and_one_line_per_row_in_order() {
    let mut second = sample_row();
    second.position = 2;
    second.team.name = "Chelsea".to_string();
    let rows = vec![sample_row(), second];
    let comp = Competition { id: 2021, name: "Premier League".to_string() };
    let table = create_table(&rows, &comp);
    let lines: Vec<&str> = table.lines().collect();
    assert_eq!(lines[0], "Premier League");
    assert_eq!(format!("{}\n", lines[1]), header_line());
    // One line per row, in input order: Arsenal before Chelsea.
    assert!(lines[2].contains("Arsenal"));
    assert!(lines[3].contains("Chelsea"));
    let header_count = table.matches("Pos |").count();
    assert_eq!(header_count, 1);
    assert!(table.ends_with("\r\n."));
}

#[test]
fn empty_table_renders_header_only() {
    let rows: Vec<Standing> = Vec::new();
    let comp = Competition { id: 2002, name: "Bundesliga".to_string() };
    let table = create_table(&rows, &comp);
    let expected = format!("Bundesliga\n{}\r\n.", header_line());
    assert_eq!(table, expected);
}
