use scrutey::{
    Base64Strategy, Family, JsonStrategy, NaiveChecker, Checker, ReportCard, StrategyType,
    SURENESS_UNIT,
};

fn get_ordered_results(input: &str) -> Vec<ReportCard> {
    let chkr = NaiveChecker::new();
    let mut results = chkr.check(input);
    results.sort_by(|b, a| a.sureness.cmp(&b.sureness));

    results
}

fn sureness_limit(sureness: u32) {
    assert!(sureness > SURENESS_UNIT / 10 * 9)
}

#[test]
fn register() {
    let checker = NaiveChecker::new();
    assert_eq!(checker.strategy_register.len(), 2);

    let json_strategy_in_register = checker
        .strategy_register
        .iter()
        .map(|s| s.id())
        .find(|s| s == &JsonStrategy {}.id())
        .is_some();

    let b64_strategy_in_register = checker
        .strategy_register
        .iter()
        .map(|s| s.id())
        .find(|s| s == &Base64Strategy {}.id())
        .is_some();

    assert!(json_strategy_in_register);
    assert!(b64_strategy_in_register);
}

#[test]
fn check_json() {
    let json = "{\"hello\": \"world\"}";
    let results = get_ordered_results(json);
    assert_eq!(results[0].family, Family::JSON);
    sureness_limit(results[0].sureness)
}

#[test]
fn check_b64() {
    let base64 = "aGVsbG8gd29ybGQ=";
    let results = get_ordered_results(base64);
    assert_eq!(results[0].family, Family::BASE64);
    sureness_limit(results[0].sureness);
}

#[test]
fn check_garbage() {
    let garbage = "asoidjfas'odifujasd[ofiuasdf";
    let results = get_ordered_results(garbage);

    let no_sure_results = results.iter().map(|r| r.sureness).all(|s| s < SURENESS_UNIT / 10);

    assert!(no_sure_results);
}

#[test]
fn check_is_one_card_per_strategy_in_order() {
    let checker = NaiveChecker::new();
    let results = checker.check("anything at all");
    assert_eq!(results.len(), 2);
    assert_eq!(results[0].family, Family::BASE64);
    assert_eq!(results[1].family, Family::JSON);
    for card in &results {
        assert!(card.sureness <= SURENESS_UNIT);
    }
}
