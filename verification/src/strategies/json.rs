use vstd::prelude::*;

use crate::families::Family;
use crate::foreign::is_json;
use crate::foreign::json_well_formed;
use crate::report_card::{ReportCard, ReportCardV, SURENESS_UNIT};
use crate::strategies::strategy::StrategyType;

verus! {

/// Detects well-formed JSON by attempting a full structural parse. The signal
/// is binary: full confidence when the parse succeeds, none otherwise. Parser
/// errors are not surfaced into the report card's error list.
pub struct JsonStrategy {}

impl StrategyType for JsonStrategy {
    open spec fn spec_id(&self) -> Seq<char> {
        "JSON_ONLY"@
    }

    open spec fn spec_child_of_id(&self) -> Option<Seq<char>> {
        None
    }

    open spec fn spec_family(&self) -> Family {
        Family::JSON
    }

    open spec fn spec_parse(&self, input: Seq<char>) -> ReportCardV {
        ReportCardV {
            sureness: if is_json(input) {
                SURENESS_UNIT
            } else {
                0
            },
            type_friendly_name: "JSON"@,
            family: Family::JSON,
            known_errors: Seq::<crate::report_card::ParseErrorV>::empty(),
        }
    }

    fn id(&self) -> (r: String) {
        "JSON_ONLY".to_owned()
    }

    fn child_of_id(&self) -> (r: Option<String>) {
        None
    }

    fn family(&self) -> (r: Family) {
        Family::JSON
    }

    fn parse(&self, input: &str) -> (r: ReportCard) {
        let sureness: u32 = if json_well_formed(input) {
            SURENESS_UNIT
        } else {
            0
        };
        ReportCard::new(sureness, "JSON".to_owned(), Family::JSON)
    }
}

} // verus!
