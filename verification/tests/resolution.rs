use fwapi::casefold::{canonical_chain_name, str_eq_ignore_case};
use fwapi::errors::FwError;
use fwapi::resolve::resolve_chain;

fn chains() -> Vec<String> {
    vec![
        "INPUT".to_string(),
        "FORWARD".to_string(),
        "LOGGING".to_string(),
    ]
}

#[test]
fn resolution_is_case_insensitive() {
    let chains = chains();
    let lower = resolve_chain(&chains, "logging");
    let upper = resolve_chain(&chains, "LOGGING");
    let mixed = resolve_chain(&chains, "LoGgInG");
    assert_eq!(lower, Ok("LOGGING".to_string()));
    assert_eq!(upper, Ok("LOGGING".to_string()));
    assert_eq!(mixed, Ok("LOGGING".to_string()));
}

#[test]
fn resolution_returns_the_canonical_name() {
    let chains = vec!["Logging".to_string()];
    assert_eq!(
        resolve_chain(&chains, "LOGGING"),
        Ok("Logging".to_string())
    );
}

#[test]
fn resolution_of_an_absent_chain_is_not_found() {
    let chains = chains();
    assert_eq!(resolve_chain(&chains, "web"), Err(FwError::NotFound));
    let empty: Vec<String> = Vec::new();
    assert_eq!(resolve_chain(&empty, "INPUT"), Err(FwError::NotFound));
}

#[test]
fn resolution_takes_the_first_match() {
    let chains = vec!["input".to_string(), "INPUT".to_string()];
    assert_eq!(resolve_chain(&chains, "Input"), Ok("input".to_string()));
}

#[test]
fn listing_is_idempotent_on_one_snapshot() {
    let chains = chains();
    let first = resolve_chain(&chains, "forward");
    let second = resolve_chain(&chains, "forward");
    assert_eq!(first, second);
    assert_eq!(first, Ok("FORWARD".to_string()));
}

#[test]
fn case_insensitive_equality_folds_ascii_only() {
    assert!(str_eq_ignore_case("LOGGING", "logging"));
    assert!(str_eq_ignore_case("", ""));
    assert!(!str_eq_ignore_case("LOGGING", "logging2"));
    assert!(!str_eq_ignore_case("LOG", "LOGGING"));
    assert!(str_eq_ignore_case("a-b_9", "A-B_9"));
}

#[test]
fn creation_normalizes_to_upper_case() {
    assert_eq!(canonical_chain_name("web"), "WEB");
    assert_eq!(canonical_chain_name("Logging"), "LOGGING");
    assert_eq!(canonical_chain_name("WEB"), "WEB");
}
