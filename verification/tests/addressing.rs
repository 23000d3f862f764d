use fwapi::command::InsertRuleCommand;
use fwapi::errors::FwError;
use fwapi::facade::insert_rule;
use fwapi::rules::rule_at;

fn abc() -> Vec<String> {
    vec!["A".to_string(), "B".to_string(), "C".to_string()]
}

#[test]
fn rule_at_returns_the_rule_at_the_position() {
    let rules = abc();
    assert_eq!(rule_at(&rules, 0), Ok("A".to_string()));
    assert_eq!(rule_at(&rules, 1), Ok("B".to_string()));
    assert_eq!(rule_at(&rules, 2), Ok("C".to_string()));
}

#[test]
fn rule_at_past_the_end_is_out_of_range() {
    let rules = abc();
    assert_eq!(rule_at(&rules, 5), Err(FwError::OutOfRange));
    assert_eq!(rule_at(&rules, 3), Err(FwError::OutOfRange));
}

#[test]
fn rule_at_on_an_empty_chain_is_out_of_range() {
    let rules: Vec<String> = Vec::new();
    assert_eq!(rule_at(&rules, 0), Err(FwError::OutOfRange));
}

#[test]
fn insert_position_beyond_signed_range_is_out_of_range() {
    // Rejected before the subsystem is asked anything, so the outcome does
    // not depend on the host.
    let command = InsertRuleCommand {
        position: u32::MAX,
        rule: "-j ACCEPT".to_string(),
    };
    match insert_rule("filter", "INPUT", &command) {
        Err(FwError::OutOfRange) => {}
        other => panic!("expected OutOfRange, got {:?}", other),
    }
}

#[test]
fn delete_by_position_derives_the_exact_text() {
    // The text handed to the subsystem's content-addressed deletion is
    // re-derived from the listing at the requested position.
    let rules = abc();
    let text = rule_at(&rules, 1).unwrap();
    assert_eq!(text, "B");
    let remaining: Vec<String> = rules.iter().filter(|r| **r != text).cloned().collect();
    assert_eq!(remaining, vec!["A".to_string(), "C".to_string()]);
}
