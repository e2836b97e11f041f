use std::collections::HashMap;

use gitgarden::api::languages::MostUsedLanguage;
use gitgarden::api::stats::{ContributionsCollection, User};
use gitgarden::api::structures::GithubGraphQLError;
use gitgarden::render::contribution_cells::ContributionCells;
use gitgarden::render::farm::{Farm, Layer};
use gitgarden::render::home::Home;
use gitgarden::render::objects::Objects;
use gitgarden::render::renderable::Renderable;
use gitgarden::services::farm::fetcher::FetchedData;
use gitgarden::services::farm::render::{
    compose_farm, progress_share, render_farm, Assets, FarmError,
};
use gitgarden::utils::date::Date;
use gitgarden::utils::encode::encode_asset;

fn no_assets() -> Assets {
    Assets { sprites: vec![], home: None, road: None }
}

fn stats(counts: i32, repositories: i32) -> User {
    User {
        login: "marshallku".to_string(),
        contributions_collection: ContributionsCollection {
            total_commit_contributions: 100,
            total_issue_contributions: counts,
            total_pull_request_contributions: counts,
            total_pull_request_review_contributions: counts,
            total_repositories_with_contributed_commits: repositories,
            total_repositories_with_contributed_issues: counts,
            total_repositories_with_contributed_pull_requests: counts,
            total_repositories_with_contributed_pull_request_reviews: counts,
        },
    }
}

fn failure() -> Vec<GithubGraphQLError> {
    vec![GithubGraphQLError {
        error_type: "RequestError".to_string(),
        path: vec![],
        locations: vec![],
        message: "no answer".to_string(),
    }]
}

fn referenced_ids(svg: &str) -> Vec<String> {
    svg.split("xlink:href=\"#")
        .skip(1)
        .map(|rest| rest.split('"').next().unwrap().to_string())
        .collect()
}

fn defined_ids(svg: &str) -> Vec<String> {
    svg.split("<image id=\"")
        .skip(1)
        .map(|rest| rest.split('"').next().unwrap().to_string())
        .collect()
}

#[test]
fn an_empty_farm_is_a_whole_image() {
    let farm = Farm::new(913, 465);
    let svg = farm.render();
    let expected_head = "\n            <svg\n                xmlns=\"http://www.w3.org/2000/svg\"\n                xmlns:xlink=\"http://www.w3.org/1999/xlink\"\n                viewBox=\"0 0 913 465\"\n                fill=\"none\"\n                style=\"width: 913px; height: 465px;\"\n            >\n               <rect width=\"100%\" height=\"100%\" fill=\"#E5C77C\" />\n               <defs>\n                    <style>\n                        .mask {\n                            mix-blend-mode: color;\n                            opacity: 0.8;\n                        }\n                    </style>\n               </defs>\n               <defs><image id=\"flower-1\" width=\"16\" height=\"16\" xlink:href=\"data:image/png;base64,\" />";
    assert!(svg.starts_with(expected_head));
    assert!(svg.ends_with("</defs>\n               \n            </svg>\n            "));
    assert_eq!(svg.matches("<image id=").count(), 13);
    assert_eq!(svg.matches("<mask id=").count(), 1);
    assert_eq!(svg.matches("<use").count(), 0);
    assert!(svg.contains("<image id=\"tree-1\" width=\"35\" height=\"60\" xlink:href=\"data:image/png;base64,\" />"));
    assert!(svg.contains("\n                    <mask id=\"mask-flower-4\" maskUnits=\"objectBoundingBox\" maskContentUnits=\"objectBoundingBox\">\n                        <rect x=\"0\" y=\"0\" width=\"1\" height=\"1\" fill=\"#000\"/>\n                        <path d=\"M0.0625 0.3125h"));
    assert!(svg.contains("z\" fill=\"#fff\"/>\n                    </mask>\n                    "));
}

#[test]
fn every_sprite_is_defined_once_and_in_order() {
    let svg = Farm::new(1, 1).render();
    let expected: Vec<String> = Objects::iter().iter().map(|object| object.to_string()).collect();
    assert_eq!(defined_ids(&svg), expected);
}

#[test]
fn pictures_are_carried_in_base64() {
    let mut farm = Farm::new(10, 10);
    farm.set_pictures(vec![Some(b"any carnal pleas".to_vec()), None, Some(vec![0xff, 0xfe])]);
    let svg = farm.render();
    assert!(svg.contains("<image id=\"flower-1\" width=\"16\" height=\"16\" xlink:href=\"data:image/png;base64,YW55IGNhcm5hbCBwbGVhcw\" />"));
    assert!(svg.contains("<image id=\"flower-2\" width=\"16\" height=\"16\" xlink:href=\"data:image/png;base64,\" />"));
    assert!(svg.contains("<image id=\"flower-3\" width=\"16\" height=\"16\" xlink:href=\"data:image/png;base64,//4\" />"));
    assert!(svg.contains("<image id=\"dirt\" width=\"16\" height=\"16\" xlink:href=\"data:image/png;base64,\" />"));
    assert_eq!(encode_asset(&Some(b"hello".to_vec())), "aGVsbG8");
    assert_eq!(encode_asset(&Some(vec![])), "");
    assert_eq!(encode_asset(&None), "");
}

#[test]
fn the_ground_turns_from_dirt_to_grass() {
    let mut farm = Farm::new(10, 10);
    assert!(farm.render().contains("fill=\"#E5C77C\""));
    farm.set_progress(10000);
    assert!(farm.render().contains("fill=\"#A5C543\""));
    farm.set_progress(5000);
    assert!(farm.render().contains("fill=\"#C5C660\""));
}

#[test]
fn layers_are_written_in_the_order_in_which_they_were_added() {
    let start = Date::from_ymd(2024, 1, 1).unwrap();
    let cells = ContributionCells::new(2024, start, 1, HashMap::new(), vec![]);
    let cells_text = cells.render();
    let home_text = Home::new("u").render();

    let mut farm = Farm::new(10, 10);
    farm.add_object(Layer::Home(Home::new("u")));
    farm.add_object(Layer::ContributionCells(cells));
    let svg = farm.render();
    assert!(svg.ends_with(&format!(
        "</defs>\n               {}{}\n            </svg>\n            ",
        home_text, cells_text
    )));
}

#[test]
fn progress_is_the_share_of_half_the_days() {
    assert_eq!(progress_share(0, 365), 0);
    assert_eq!(progress_share(100, 365), 5479);
    assert_eq!(progress_share(1, 365), 54);
    assert_eq!(progress_share(182, 365), 9972);
    assert_eq!(progress_share(183, 365), 10000);
    assert_eq!(progress_share(365, 365), 10000);
    assert_eq!(progress_share(usize::MAX, 365), 10000);
    assert_eq!(progress_share(0, 0), 10000);
    assert_eq!(progress_share(5, 0), 10000);
    assert_eq!(progress_share(1, 1), 10000);
    assert_eq!(progress_share(1, 3), 6666);
}

#[test]
fn scenario_stats_failed() {
    let mut commits = HashMap::new();
    commits.insert(Date::from_ymd(2024, 3, 1).unwrap().day_number(), 2);
    commits.insert(Date::from_ymd(2024, 3, 2).unwrap().day_number(), 4);
    let data = FetchedData {
        commits,
        stats: Err(failure()),
        languages: vec![MostUsedLanguage {
            name: "Rust".to_string(),
            color: "#dea584".to_string(),
            percentage: 10000,
        }],
    };
    let svg = render_farm("marshallku", 2024, data, (2024, 6, 1), no_assets()).unwrap();

    assert!(svg.trim_start().starts_with("<svg"));
    assert!(svg.trim_end().ends_with("</svg>"));
    assert_eq!(svg.matches("<svg").count(), 1);
    assert_eq!(svg.matches("</svg>").count(), 1);
    assert_eq!(svg.matches("#dirt\"").count(), 366);
    assert_eq!(svg.matches("#flower-2\"").count(), 1);
    assert_eq!(svg.matches("#flower-4\"").count(), 1);
    assert_eq!(svg.matches("<rect mask=").count(), 1);
    assert_eq!(svg.matches("<image width=\"151\"").count(), 1);
    assert_eq!(svg.matches("#grass-").count(), 0);
    assert_eq!(svg.matches("#tree-").count(), 0);

    let defined = defined_ids(&svg);
    for id in referenced_ids(&svg) {
        assert!(defined.contains(&id), "{} is not defined", id);
    }
    assert!(svg.contains("<mask id=\"mask-flower-4\""));
}

#[test]
fn scenario_no_activity() {
    let data = FetchedData {
        commits: HashMap::new(),
        stats: Ok(stats(0, 0)),
        languages: vec![],
    };
    let svg = render_farm("marshallku", 2024, data, (2024, 6, 1), no_assets()).unwrap();

    // The grid of 2024 has 53 weeks of seven days, 366 of them in the year:
    // those get their dirt, the five before and after the year nothing.
    assert_eq!(svg.matches("#dirt\"").count(), 366);
    assert_eq!(svg.matches("#flower-").count(), 0);
    assert_eq!(svg.matches("#grass-").count(), 0);
    assert_eq!(svg.matches("#tree-").count(), 0);
    assert_eq!(svg.matches("<use").count(), 366);
    assert_eq!(svg.matches("<image width=\"151\" height=\"155\"").count(), 1);
    assert_eq!(svg.matches("<image width=\"31\" height=\"89\"").count(), 1);
    assert!(svg.contains("viewBox=\"0 0 913 465\""));
    assert!(svg.contains("fill=\"#E5C77C\""));
}

#[test]
fn scenario_a_full_year() {
    let mut commits = HashMap::new();
    for day in 0..200 {
        commits.insert(Date::from_ymd(2023, 1, 1).unwrap().day_number() + day, (day % 6) as u32);
    }
    let data = FetchedData {
        commits,
        stats: Ok(stats(3, 7)),
        languages: vec![
            MostUsedLanguage { name: "Go".to_string(), color: "#00ADD8".to_string(), percentage: 3000 },
            MostUsedLanguage { name: "Rust".to_string(), color: "#dea584".to_string(), percentage: 7000 },
        ],
    };
    let assets = Assets {
        sprites: Objects::iter().iter().map(|object| Some(object.to_path().into_bytes())).collect(),
        home: Some(b"home".to_vec()),
        road: Some(b"road".to_vec()),
    };
    let svg = render_farm("marshallku", 2023, data, (2024, 6, 1), assets).unwrap();

    assert_eq!(svg.matches("#dirt\"").count(), 365);
    assert_eq!(svg.matches("#grass-").count(), 18);
    assert_eq!(svg.matches("#tree-").count(), 7);
    assert_eq!(svg.matches("fill=\"#dea584\"").count(), svg.matches("<rect mask=").count());
    assert!(svg.matches("<rect mask=").count() > 0);
    assert!(svg.contains("fill=\"#A5C543\""));
    assert!(svg.contains("base64,aG9tZQ\""));
    assert!(svg.contains("base64,cm9hZA\""));
    let grid = svg.find("#dirt\"").unwrap();
    let grass = svg.find("#grass-").unwrap();
    let tree = svg.find("#tree-").unwrap();
    let home = svg.find("<image width=\"151\"").unwrap();
    assert!(grid < grass && grass < tree && tree < home);
    let defined = defined_ids(&svg);
    for id in referenced_ids(&svg) {
        assert!(defined.contains(&id), "{} is not defined", id);
    }
}

#[test]
fn the_image_is_the_same_every_time() {
    let make = || FetchedData {
        commits: HashMap::new(),
        stats: Ok(stats(5, 5)),
        languages: vec![],
    };
    let first = render_farm("marshallku", 2024, make(), (2024, 6, 1), no_assets()).unwrap();
    let second = render_farm("marshallku", 2024, make(), (2024, 6, 1), no_assets()).unwrap();
    let other = render_farm("octocat", 2024, make(), (2024, 6, 1), no_assets()).unwrap();
    assert_eq!(first, second);
    assert_ne!(first, other);
}

#[test]
fn a_year_that_the_calendar_lacks_fails() {
    let make = || FetchedData { commits: HashMap::new(), stats: Err(vec![]), languages: vec![] };
    let error = render_farm("u", 262144, make(), (2024, 6, 1), no_assets()).unwrap_err();
    assert!(matches!(error, FarmError::YearRange));
    assert_eq!(error.to_string(), "Failed to get year range");
    assert!(render_farm("u", i32::MIN, make(), (2024, 6, 1), no_assets()).is_err());
    assert!(compose_farm("u", 262143, make(), (2024, 6, 1), no_assets()).is_err());
    assert!(compose_farm("u", 262141, make(), (2024, 6, 1), no_assets()).is_ok());
}

#[test]
fn the_farm_is_composed_of_its_layers() {
    let data = FetchedData { commits: HashMap::new(), stats: Ok(stats(1, 2)), languages: vec![] };
    let farm = compose_farm("marshallku", 2000, data, (2000, 1, 1), no_assets()).unwrap();
    assert_eq!(farm.width, 54 * 17 + 12);
    assert_eq!(farm.height, 465);
    assert_eq!(farm.progress, 10000);
    assert_eq!(farm.objects.len(), 4);
    assert!(matches!(farm.objects[0], Layer::ContributionCells(_)));
    assert!(matches!(farm.objects[1], Layer::Grasses(_)));
    assert!(matches!(farm.objects[2], Layer::Trees(_)));
    assert!(matches!(farm.objects[3], Layer::Home(_)));

    let data = FetchedData { commits: HashMap::new(), stats: Err(failure()), languages: vec![] };
    let farm = compose_farm("marshallku", 2024, data, (2024, 7, 1), no_assets()).unwrap();
    assert_eq!(farm.width, 913);
    assert_eq!(farm.progress, 0);
    assert_eq!(farm.objects.len(), 2);
    assert!(matches!(farm.objects[0], Layer::ContributionCells(_)));
    assert!(matches!(farm.objects[1], Layer::Home(_)));
}
