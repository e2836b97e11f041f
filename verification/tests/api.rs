use gitgarden::api::contributions::{
    contributions_url, parse_commit_from_string, parse_iso_date, parse_level, CommitsError,
};
use gitgarden::api::languages::{
    languages_from_response, most_used_languages, LanguageData, LanguageEdge, LanguageNode,
    Languages, Repositories, Repository, User as LanguageUser,
};
use gitgarden::api::stats::{
    request_error, stats_from_response, year_period, ContributionsCollection, Data, User,
};
use gitgarden::api::structures::{GithubGraphQLError, GithubGraphQLResponse, Location};
use gitgarden::utils::date::Date;

fn day(year: i32, month: u32, day: u32) -> i32 {
    Date::from_ymd(year, month, day).unwrap().day_number()
}

fn edge(name: &str, color: &str, size: i32) -> LanguageEdge {
    LanguageEdge {
        size,
        node: LanguageNode { color: color.to_string(), name: name.to_string() },
    }
}

fn repository(name: &str, edges: Vec<LanguageEdge>) -> Repository {
    Repository { name: name.to_string(), languages: Languages { edges } }
}

fn shares(nodes: &Vec<Repository>) -> Vec<(String, String, u32)> {
    most_used_languages(nodes)
        .into_iter()
        .map(|language| (language.name, language.color, language.percentage))
        .collect()
}

fn entry(name: &str, color: &str, percentage: u32) -> (String, String, u32) {
    (name.to_string(), color.to_string(), percentage)
}

fn user() -> User {
    User {
        login: "marshallku".to_string(),
        contributions_collection: ContributionsCollection {
            total_commit_contributions: 1,
            total_issue_contributions: 2,
            total_pull_request_contributions: 3,
            total_pull_request_review_contributions: 4,
            total_repositories_with_contributed_commits: 5,
            total_repositories_with_contributed_issues: 6,
            total_repositories_with_contributed_pull_requests: 7,
            total_repositories_with_contributed_pull_request_reviews: 8,
        },
    }
}

fn error(message: &str) -> GithubGraphQLError {
    GithubGraphQLError {
        error_type: "NOT_FOUND".to_string(),
        path: vec!["user".to_string()],
        locations: vec![Location { line: 2, column: 9 }],
        message: message.to_string(),
    }
}

#[test]
fn languages_are_counted_over_all_repositories() {
    let nodes = vec![
        repository("a", vec![edge("Rust", "#dea584", 600), edge("Go", "#00ADD8", 100)]),
        repository("b", vec![]),
        repository("c", vec![edge("Go", "#ffffff", 100), edge("C", "#555555", 200)]),
    ];
    assert_eq!(
        shares(&nodes),
        vec![entry("Rust", "#dea584", 6000), entry("Go", "#00ADD8", 2000), entry("C", "#555555", 2000)]
    );
}

#[test]
fn shares_are_rounded_down() {
    let nodes = vec![repository(
        "a",
        vec![edge("A", "#1", 1), edge("B", "#2", 1), edge("C", "#3", 1)],
    )];
    assert_eq!(
        shares(&nodes),
        vec![entry("A", "#1", 3333), entry("B", "#2", 3333), entry("C", "#3", 3333)]
    );
    let nodes = vec![repository("a", vec![edge("A", "#1", i32::MAX), edge("A", "#1", i32::MAX), edge("B", "#2", 1)])];
    assert_eq!(shares(&nodes), vec![entry("A", "#1", 9999), entry("B", "#2", 0)]);
}

#[test]
fn no_code_gives_no_shares() {
    assert_eq!(shares(&vec![]), vec![]);
    assert_eq!(shares(&vec![repository("a", vec![])]), vec![]);
    let nodes = vec![repository("a", vec![edge("A", "#1", 0), edge("B", "#2", 0)])];
    assert_eq!(shares(&nodes), vec![entry("A", "#1", 0), entry("B", "#2", 0)]);
    let nodes = vec![repository("a", vec![edge("A", "#1", 5), edge("B", "#2", -3)])];
    assert_eq!(shares(&nodes), vec![entry("A", "#1", 25000), entry("B", "#2", 0)]);
    let nodes = vec![repository("a", vec![edge("A", "#1", 5), edge("B", "#2", -5)])];
    assert_eq!(shares(&nodes), vec![entry("A", "#1", 0), entry("B", "#2", 0)]);
}

#[test]
fn an_answer_with_languages_is_read() {
    let nodes = vec![repository("a", vec![edge("Rust", "#dea584", 1)])];
    let response = GithubGraphQLResponse {
        data: Some(LanguageData { user: Some(LanguageUser { repositories: Repositories { nodes } }) }),
        errors: None,
    };
    let languages = languages_from_response(response).unwrap();
    assert_eq!(languages.len(), 1);
    assert_eq!(languages[0].name, "Rust");
    assert_eq!(languages[0].percentage, 10000);
}

#[test]
fn an_unexpected_answer_for_languages_is_one_error() {
    let answers = vec![
        GithubGraphQLResponse { data: None, errors: None },
        GithubGraphQLResponse { data: None, errors: Some(vec![error("no")]) },
        GithubGraphQLResponse {
            data: Some(LanguageData { user: None }),
            errors: Some(vec![]),
        },
    ];
    for response in answers {
        let errors = languages_from_response(response).unwrap_err();
        assert_eq!(errors.len(), 1);
        assert_eq!(errors[0].error_type, "ResponseError");
        assert_eq!(errors[0].message, "Unexpected response");
        assert!(errors[0].path.is_empty());
        assert!(errors[0].locations.is_empty());
    }
}

#[test]
fn an_answer_with_counters_is_read() {
    let response = GithubGraphQLResponse { data: Some(Data { user: Some(user()) }), errors: None };
    let found = stats_from_response("marshallku", response).unwrap();
    assert_eq!(found.login, "marshallku");
    assert_eq!(found.contributions_collection.total_repositories_with_contributed_commits, 5);
}

#[test]
fn the_errors_of_an_answer_are_handed_on() {
    let response = GithubGraphQLResponse { data: None, errors: Some(vec![error("a"), error("b")]) };
    let errors = stats_from_response("marshallku", response).unwrap_err();
    assert_eq!(errors.len(), 2);
    assert_eq!(errors[0].message, "a");
    assert_eq!(errors[1].message, "b");
    assert_eq!(errors[0].error_type, "NOT_FOUND");
    assert_eq!(errors[0].locations[0].line, 2);
}

#[test]
fn any_other_answer_calls_the_user_invalid() {
    let answers = vec![
        GithubGraphQLResponse { data: None, errors: None },
        GithubGraphQLResponse { data: Some(Data { user: Some(user()) }), errors: Some(vec![]) },
        GithubGraphQLResponse { data: Some(Data { user: None }), errors: Some(vec![error("x")]) },
    ];
    for response in answers {
        let errors = stats_from_response("nobody", response).unwrap_err();
        assert_eq!(errors.len(), 1);
        assert_eq!(errors[0].error_type, "ResponseError");
        assert_eq!(errors[0].message, "Invalid user: nobody");
        assert_eq!(errors[0].path, vec!["unknown".to_string()]);
        assert!(errors[0].locations.is_empty());
    }
}

#[test]
fn a_request_without_an_answer_is_one_error() {
    let errors = request_error("connection refused".to_string());
    assert_eq!(errors.len(), 1);
    assert_eq!(errors[0].error_type, "RequestError");
    assert_eq!(errors[0].message, "connection refused");
    assert!(errors[0].path.is_empty());
    assert!(errors[0].locations.is_empty());
}

#[test]
fn the_period_of_a_year_is_written_for_the_service() {
    assert_eq!(
        year_period(2024),
        ("2024-01-01T00:00:00Z".to_string(), "2024-12-31T23:59:59Z".to_string())
    );
    assert_eq!(year_period(-5).0, format!("{}-01-01T00:00:00Z", -5));
    assert_eq!(year_period(i32::MIN).1, format!("{}-12-31T23:59:59Z", i32::MIN));
}

#[test]
fn the_page_of_a_year_has_its_address() {
    assert_eq!(
        contributions_url("marshallku", 2024),
        "https://github.com/users/marshallku/contributions?from=2024-01-01&to=2024-12-31"
    );
    assert_eq!(
        contributions_url("", -1),
        "https://github.com/users//contributions?from=-1-01-01&to=-1-12-31"
    );
}

#[test]
fn commits_are_read_off_the_cells_of_the_table() {
    let page = r#"
<table><tbody><tr>
<td class="day" data-date="2024-01-01" data-level="0"></td>
<td class="day" data-date="2024-01-02" data-level="1">one</td>
<td data-level="3" data-date="2024-01-03"></td>
<td data-date="2024-01-04" data-level="4" id="x"></td>
<td data-date="2024-01-05"></td>
<td data-level="2"></td>
<th data-date="2024-01-06" data-level="2"></th>
<div data-date="2024-01-07" data-level="2"></div>
<td data-date="2024-1-8" data-level="2"></td>
<td data-date="2024-02-30" data-level="2"></td>
<td data-date="2024-01-09" data-level="two"></td>
<td data-date="2024-01-10" data-level="-1"></td>
<td data-date="2024-01-11" data-level="+2"></td>
<td data-date="2024-01-12" data-level="4294967295"></td>
<td data-date="2024-01-13" data-level="4294967296"></td>
<!-- <td data-date="2024-01-14" data-level="2"></td> -->
</tr></tbody></table>
"#;
    let commits = parse_commit_from_string(page).unwrap();
    let mut expected = std::collections::HashMap::new();
    expected.insert(day(2024, 1, 2), 1);
    expected.insert(day(2024, 1, 3), 3);
    expected.insert(day(2024, 1, 4), 4);
    expected.insert(day(2024, 1, 11), 2);
    expected.insert(day(2024, 1, 12), 4294967295);
    assert_eq!(commits, expected);
}

#[test]
fn a_later_cell_takes_the_place_of_an_earlier() {
    let page = r#"<td data-date="2024-01-02" data-level="1"></td><td data-date="2024-01-02" data-level="3"></td><td data-date="2024-01-02" data-level="0"></td>"#;
    let commits = parse_commit_from_string(page).unwrap();
    assert_eq!(commits.len(), 1);
    assert_eq!(commits[&day(2024, 1, 2)], 3);
}

#[test]
fn a_page_without_cells_has_no_commits() {
    assert!(parse_commit_from_string("").unwrap().is_empty());
    assert!(parse_commit_from_string("plain text").unwrap().is_empty());
    assert!(parse_commit_from_string("<html><body><p>404</p></body></html>").unwrap().is_empty());
    assert_eq!(
        CommitsError::PageTooLong.to_string(),
        "The input string length is too large to fit in a `u32`"
    );
}

#[test]
fn days_are_read_as_the_calendar_writes_them() {
    assert_eq!(parse_iso_date("2024-01-02"), Date::from_ymd(2024, 1, 2));
    assert_eq!(parse_iso_date("0000-12-31"), Date::from_ymd(0, 12, 31));
    assert_eq!(parse_iso_date("9999-12-31"), Date::from_ymd(9999, 12, 31));
    assert_eq!(parse_iso_date("2024-02-29"), Date::from_ymd(2024, 2, 29));
    for text in [
        "", "2024-01-2", "2024-1-02", "24-01-02", "2024-01-021", "2024/01/02", "2024-01-02 ",
        "2023-02-29", "2024-13-01", "2024-00-10", "2024-01-00", "2024-01-32", "+2024-01-02",
        "-001-01-01", "20a4-01-02", "2024-0a-02", "2024-01-0a", "2024\u{2d}01\u{2013}2",
    ] {
        assert_eq!(parse_iso_date(text), None, "{:?}", text);
    }
    for days in (730_000..740_000).step_by(37) {
        let date = chrono::NaiveDate::from_num_days_from_ce_opt(days).unwrap();
        let text = date.format("%Y-%m-%d").to_string();
        assert_eq!(parse_iso_date(&text).unwrap().day_number(), days);
    }
}

#[test]
fn levels_are_read_as_std_reads_them() {
    for text in ["0", "1", "4", "+4", "004", "4294967295", "4294967296", "", "-1", "1.0", " 1", "99999999999999999999"] {
        assert_eq!(parse_level(text), text.parse::<u32>().ok(), "{:?}", text);
    }
}
