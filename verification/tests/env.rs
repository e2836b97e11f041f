use gitgarden::controllers::index::{
    asked, failure_headers, farm_headers, page_headers, Asked, Options, KEPT_AGE, NO_AGE,
};
use gitgarden::env::app::{parse_port, Env};
use gitgarden::env::state::{AppState, CACHE_TTL_SECS};
use gitgarden::services::render_page::render_page;

fn text(value: &str) -> Option<String> {
    Some(value.to_string())
}

#[test]
fn settings_follow_the_environment() {
    let env = Env::new(text("8080"), text("0.0.0.0"), text("a-token"));
    assert_eq!(env.port, 8080);
    assert_eq!(env.host, "0.0.0.0");
    assert_eq!(env.token, "a-token");
}

#[test]
fn settings_have_their_defaults() {
    let env = Env::new(None, None, None);
    assert_eq!(env.port, 41890);
    assert_eq!(env.host, "http://localhost/");
    assert_eq!(env.token, "");
    assert_eq!(Env::new(text("eighty"), None, None).port, 18080);
    assert_eq!(Env::new(text("65536"), None, None).port, 18080);
    assert_eq!(Env::new(text(""), None, None).port, 18080);
    assert_eq!(Env::new(text("0"), None, None).port, 0);
}

#[test]
fn settings_with_a_token_have_one_default_port() {
    let env = gitgarden::env::env::Env::new(text("eighty"), None, text("t"));
    assert_eq!(env.port, 41890);
    assert_eq!(env.host, "http://localhost/");
    assert_eq!(env.token, "t");
    let env = gitgarden::env::env::Env::new(text("81"), text("h"), text("t"));
    assert_eq!((env.port, env.host.as_str()), (81, "h"));
}

#[test]
fn ports_are_read_as_std_reads_them() {
    for value in ["0", "80", "+80", "65535", "65536", "", "-1", "8o", " 80", "080"] {
        assert_eq!(parse_port(value), value.parse::<u16>().ok(), "{:?}", value);
    }
}

#[test]
fn the_state_starts_with_an_empty_cache() {
    let state = AppState::from_env(Env::new(text("1"), text("h"), text("t")), 1000);
    assert_eq!((state.port, state.host.as_str(), state.token.as_str()), (1, "h", "t"));
    assert_eq!(state.cache.len(), 0);
    assert_eq!(state.cache.time_to_live(), CACHE_TTL_SECS * 1000);
    assert_eq!(CACHE_TTL_SECS, 24 * 60 * 60);
}

#[test]
fn a_request_without_a_user_asks_for_the_page() {
    assert!(matches!(asked(Options { user_name: None, year: None }, 2024), Asked::Page));
    assert!(matches!(asked(Options { user_name: None, year: Some(2020) }, 2024), Asked::Page));
}

#[test]
fn a_request_with_a_user_asks_for_a_farm() {
    match asked(Options { user_name: text("marshallku"), year: None }, 2024) {
        Asked::Farm { user_name, year } => assert_eq!((user_name.as_str(), year), ("marshallku", 2024)),
        Asked::Page => panic!("a user was named"),
    }
    match asked(Options { user_name: text(""), year: Some(2020) }, 2024) {
        Asked::Farm { user_name, year } => assert_eq!((user_name.as_str(), year), ("", 2020)),
        Asked::Page => panic!("a user was named"),
    }
}

#[test]
fn answers_carry_their_headers() {
    assert_eq!(page_headers(), vec![("Content-Type", "text/html".to_string())]);
    assert_eq!(
        farm_headers("marshallku", 2024, "https://example.com:443"),
        vec![
            ("Content-Type", "image/svg+xml".to_string()),
            ("Accept-Ch", "UA, UA-Mobile, Save-Data, RTT".to_string()),
            ("Referrer-Policy", "same-origin".to_string()),
            (
                "Content-Disposition",
                "inline; filename=\"marshallku-gitgarden-2024.svg\"".to_string()
            ),
            ("Access-Control-Allow-Origin", "https://example.com:443".to_string()),
            ("X-Content-Type-Options", "nosniff".to_string()),
        ]
    );
    assert_eq!(
        failure_headers("http://localhost:80"),
        vec![
            ("Access-Control-Allow-Origin", "http://localhost:80".to_string()),
            ("X-Content-Type-Options", "nosniff".to_string()),
        ]
    );
    assert_eq!((KEPT_AGE, NO_AGE), ("1h", "0"));
}

#[test]
fn the_page_names_the_year_three_times() {
    let page = render_page(2024);
    assert!(page.starts_with("\n<!DOCTYPE html>"));
    assert!(page.ends_with("</html>\n"));
    assert_eq!(page.matches("2024").count(), 3);
    assert!(page.contains("max=\"2024\" value=\"2024\" required"));
    assert!(page.contains("year !== '2024'"));
    assert!(!page.contains("{{year}}"));
    assert_eq!(render_page(-5).matches("-5").count(), 3);
}
