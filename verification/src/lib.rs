mod checker;
mod families;
mod foreign;
mod presenter;
mod report_card;
mod scrutey;
mod strategies;

pub use checker::{lemma_check_one_card_per_strategy, BuiltinStrategy, Checker, NaiveChecker};
pub use families::Family;
pub use presenter::{
    get_header, get_response, header_of, lemma_present_depends_on_arguments_alone, present,
    present_spec, response_of,
};
pub use foreign::{b64_decoded, is_json, json_pretty, trim_of, utf8_lossy};
pub use report_card::{ParseError, ParseErrorV, ReportCard, ReportCardV, SURENESS_UNIT};
pub use scrutey::{
    is_top_index, lemma_selection_determinism, lemma_top_index_exists, lemma_top_index_unique,
    scrutinize, top_card,
};
pub use strategies::base64::{is_b64_char, is_base64_shape, Base64Strategy};
pub use strategies::json::JsonStrategy;
pub use strategies::strategy::StrategyType;
