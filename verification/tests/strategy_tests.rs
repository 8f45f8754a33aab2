use scrutey::{Base64Strategy, Family, JsonStrategy, ReportCard, StrategyType, SURENESS_UNIT};

struct TestStrategy {}

impl StrategyType for TestStrategy {
    fn id(&self) -> String {
        String::from("id")
    }

    fn child_of_id(&self) -> Option<String> {
        None
    }

    fn family(&self) -> Family {
        Family::UNSTRUCTURED
    }

    fn parse(&self, _: &str) -> ReportCard {
        ReportCard::new(0, "none".into(), self.family())
    }
}

#[test]
fn has_id() {
    let id = TestStrategy {}.id();
    assert_eq!(id, "id");
}

#[test]
fn has_child_of_id() {
    let child_of_id = TestStrategy {}.child_of_id();
    assert_eq!(child_of_id, None);
}

#[test]
fn has_family() {
    let family = TestStrategy {}.family();
    assert_eq!(family, Family::UNSTRUCTURED);
}

#[test]
fn parse() {
    let parsed = TestStrategy {}.parse("hello world");
    assert_eq!(parsed, ReportCard::new(0, "none".into(), TestStrategy {}.family()))
}

#[test]
fn base64_id() {
    assert_eq!(Base64Strategy {}.id(), "B64_ONLY");
}

#[test]
fn base64_child_of_id() {
    assert_eq!(None, Base64Strategy {}.child_of_id());
}

#[test]
fn base64_family() {
    assert_eq!(Base64Strategy {}.family(), Family::BASE64);
}

#[test]
fn parse_good() {
    let good_base64 = "aGVsbG8gd29ybGQ=";
    let report_card = Base64Strategy {}.parse(good_base64);
    assert_eq!(report_card.family, Base64Strategy {}.family());
    assert_eq!(report_card.known_errors, vec![]);
    assert_eq!(report_card.sureness, SURENESS_UNIT);
    assert_eq!(report_card.type_friendly_name, "Base64");
}

#[test]
fn parse_nonsense() {
    let bad_b64 = "potato";
    let report_card = Base64Strategy {}.parse(bad_b64);
    assert_eq!(report_card.family, Base64Strategy {}.family());
    assert_eq!(report_card.known_errors, vec![]);
    assert_eq!(report_card.sureness, 0);
    assert_eq!(report_card.type_friendly_name, "Base64");
}

#[test]
fn json_id() {
    assert_eq!("JSON_ONLY", JsonStrategy {}.id());
}

#[test]
fn json_child_of_id() {
    assert_eq!(None, JsonStrategy {}.child_of_id());
}

#[test]
fn json_family() {
    assert_eq!(Family::JSON, JsonStrategy {}.family());
}

#[test]
fn parse_valid_json() {
    let json = r#"
        {
            "foo": "bar"
        }
        "#;
    let strategy = JsonStrategy {};
    let report_card = strategy.parse(json);
    assert_eq!(report_card.family, strategy.family());
    assert_eq!(report_card.known_errors, vec![]);
    assert_eq!(report_card.sureness, SURENESS_UNIT);
    assert_eq!(report_card.type_friendly_name, "JSON");
}

#[test]
fn parse_invalid_json() {
    let json = "notjson";
    let strategy = JsonStrategy {};
    let report_card = strategy.parse(json);
    assert_eq!(report_card.family, strategy.family());
    assert_eq!(report_card.known_errors, vec![]);
    assert_eq!(report_card.sureness, 0);
    assert_eq!(report_card.type_friendly_name, "JSON");
}

#[test]
fn empty_string_matches_nothing() {
    let b64_card = Base64Strategy {}.parse("");
    assert_eq!(b64_card.sureness, 0);
    let json_card = JsonStrategy {}.parse("");
    assert_eq!(json_card.sureness, 0);
}

#[test]
fn base64_grammar_boundaries() {
    // a group of four alphabet characters, alone and repeated
    assert_eq!(Base64Strategy {}.parse("abcd").sureness, SURENESS_UNIT);
    assert_eq!(Base64Strategy {}.parse("abcdabcd").sureness, SURENESS_UNIT);
    // final groups with one and two pads
    assert_eq!(Base64Strategy {}.parse("abc=").sureness, SURENESS_UNIT);
    assert_eq!(Base64Strategy {}.parse("ab==").sureness, SURENESS_UNIT);
    // a pad may only close the string
    assert_eq!(Base64Strategy {}.parse("a===").sureness, 0);
    assert_eq!(Base64Strategy {}.parse("ab==cd==").sureness, 0);
    // length not a multiple of four, or too short
    assert_eq!(Base64Strategy {}.parse("abcde").sureness, 0);
    assert_eq!(Base64Strategy {}.parse("ab").sureness, 0);
    // characters outside the alphabet
    assert_eq!(Base64Strategy {}.parse("ab!d").sureness, 0);
}
