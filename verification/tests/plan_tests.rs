use standings::gophermap::{competitions_to_gophermap, main_title, menu_line};
use standings::model::{AppError, Competition};
use standings::plan::{auth_header_name, plan_requests, standings_url};
use standings::registry::competitions;

#[test]
fn registry_lists_the_seven_competitions() {
    let comps = competitions();
    assert_eq!(comps.len(), 7);
    let expected = [
        (2016, "Championship"),
        (2021, "Premier League"),
        (2015, "Ligue 1"),
        (2002, "Bundesliga"),
        (2019, "Serie A"),
        (2003, "Eredivisie"),
        (2017, "Primeira Liga"),
    ];
    for (comp, (id, name)) in comps.iter().zip(expected.iter()) {
        assert_eq!(comp.id, *id);
        assert_eq!(comp.name, *name);
    }
}

#[test]
fn standings_url_is_base_plus_id_plus_suffix() {
    assert_eq!(
        standings_url(2021),
        "http://api.football-data.org/v2/competitions/2021/standings"
    );
    assert_eq!(standings_url(7), "http://api.football-data.org/v2/competitions/7/standings");
}

#[test]
fn missing_api_key_is_a_config_error_and_plans_no_request() {
    // With no key, the planner must fail before any request exists.
    let comps = competitions();
    let mut planned_requests = 0;
    let res = plan_requests(None, &comps);
    if let Ok(reqs) = &res {
        planned_requests += reqs.len();
    }
    assert_eq!(res.unwrap_err(), AppError::ConfigError);
    assert_eq!(planned_requests, 0);
}

#[test]
fn plan_with_key_covers_each_competition() {
    let comps = competitions();
    let reqs = plan_requests(Some("SECRET-REDACTED".to_string()), &comps).unwrap();
    assert_eq!(reqs.len(), 7);
    assert_eq!(reqs[0].url, "http://api.football-data.org/v2/competitions/2016/standings");
    assert_eq!(reqs[1].url, "http://api.football-data.org/v2/competitions/2021/standings");
    for req in &reqs {
        assert_eq!(req.header_name, "X-Auth-Token");
        assert_eq!(req.header_value, "SECRET-REDACTED");
    }
}

#[test]
fn auth_header_is_x_auth_token() {
    assert_eq!(auth_header_name(), "X-Auth-Token");
}

#[test]
fn menu_line_points_at_the_competition_file() {
    let comp = Competition { id: 2021, name: "Premier League".to_string() };
    assert_eq!(menu_line(&comp), "0Premier League\t2021.txt\n");
}

#[test]
fn gophermap_lists_each_competition_and_terminates() {
    let comps = competitions();
    let map = competitions_to_gophermap("Mon Jan  1 00:00:00 2024", &comps);
    assert!(map.starts_with(&main_title("Mon Jan  1 00:00:00 2024")));
    for comp in &comps {
        let entry = format!("0{}\t{}.txt\n", comp.name, comp.id);
        assert!(map.contains(&entry));
    }
    assert!(map.ends_with("\r\n."));
}

#[test]
fn main_title_embeds_the_timestamp() {
    let title = main_title("Fri Oct 10 12:00:00 2025");
    assert!(title.contains("Last updated Fri Oct 10 12:00:00 2025\n"));
    assert!(title.contains("See how your team is doing with some nice soccer standings."));
}
