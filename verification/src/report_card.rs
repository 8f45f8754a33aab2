use vstd::prelude::*;

use crate::families::Family;

verus! {

/// Confidence scores are fixed-point fractions of this unit: `0` means the
/// strategy saw no match at all, `SURENESS_UNIT` means it is certain. The
/// meaningful domain is the closed interval `[0, SURENESS_UNIT]`; producers
/// are not forced to stay inside it, but consumers assume it.
pub const SURENESS_UNIT: u32 = 1_000_000;

/// A structural error descriptor: a message with the line and column it
/// refers to. No built-in strategy fills these in yet, but the field is part
/// of the report card contract for future strategies that diagnose partial
/// parses.
#[derive(Debug, Clone)]
pub struct ParseError {
    pub message: String,
    pub line: u32,
    pub col: u32,
}

/// The mathematical value of a `ParseError`.
pub ghost struct ParseErrorV {
    pub message: Seq<char>,
    pub line: u32,
    pub col: u32,
}

impl View for ParseError {
    type V = ParseErrorV;

    open spec fn view(&self) -> ParseErrorV {
        ParseErrorV { message: self.message@, line: self.line, col: self.col }
    }
}

impl DeepView for ParseError {
    type V = ParseErrorV;

    open spec fn deep_view(&self) -> ParseErrorV {
        self.view()
    }
}

impl ParseError {
    pub fn new(message: &str, line: u32, col: u32) -> (r: Self)
        ensures
            r@ == (ParseErrorV { message: message@, line, col }),
    {
        ParseError { message: message.to_owned(), line, col }
    }
}

impl PartialEq for ParseError {
    fn eq(&self, other: &Self) -> (r: bool) {
        self.message == other.message && self.line == other.line && self.col == other.col
    }
}

impl vstd::std_specs::cmp::PartialEqSpecImpl for ParseError {
    open spec fn obeys_eq_spec() -> bool {
        true
    }

    open spec fn eq_spec(&self, other: &Self) -> bool {
        self@ == other@
    }
}

/// One strategy's opinion about one input: a confidence score, a label for
/// presentation, the format family for dispatch, and any structural errors
/// the strategy chose to report. Immutable once produced.
#[derive(Debug, Clone)]
pub struct ReportCard {
    pub sureness: u32,
    pub type_friendly_name: String,
    pub family: Family,
    pub known_errors: Vec<ParseError>,
}

/// The mathematical value of a `ReportCard`.
pub ghost struct ReportCardV {
    pub sureness: u32,
    pub type_friendly_name: Seq<char>,
    pub family: Family,
    pub known_errors: Seq<ParseErrorV>,
}

impl View for ReportCard {
    type V = ReportCardV;

    open spec fn view(&self) -> ReportCardV {
        ReportCardV {
            sureness: self.sureness,
            type_friendly_name: self.type_friendly_name@,
            family: self.family,
            known_errors: self.known_errors.deep_view(),
        }
    }
}

impl DeepView for ReportCard {
    type V = ReportCardV;

    open spec fn deep_view(&self) -> ReportCardV {
        self.view()
    }
}

impl PartialEq for ReportCard {
    fn eq(&self, other: &Self) -> (r: bool) {
        self.sureness == other.sureness && self.type_friendly_name == other.type_friendly_name
            && self.family == other.family && self.known_errors == other.known_errors
    }
}

impl vstd::std_specs::cmp::PartialEqSpecImpl for ReportCard {
    open spec fn obeys_eq_spec() -> bool {
        true
    }

    open spec fn eq_spec(&self, other: &Self) -> bool {
        &&& self.sureness == other.sureness
        &&& self.type_friendly_name@ == other.type_friendly_name@
        &&& self.family == other.family
        &&& self.known_errors.len() == other.known_errors.len()
        &&& forall|i: int|
            0 <= i < self.known_errors.len() ==> self.known_errors[i]@ == other.known_errors[i]@
    }
}

impl ReportCard {
    pub fn new_with_errors(
        sureness: u32,
        type_friendly_name: String,
        family: Family,
        known_errors: Vec<ParseError>,
    ) -> (r: Self)
        ensures
            r@ == (ReportCardV {
                sureness,
                type_friendly_name: type_friendly_name@,
                family,
                known_errors: known_errors.deep_view(),
            }),
    {
        ReportCard { sureness, type_friendly_name, family, known_errors }
    }

    pub fn new(sureness: u32, type_friendly_name: String, family: Family) -> (r: Self)
        ensures
            r@ == (ReportCardV {
                sureness,
                type_friendly_name: type_friendly_name@,
                family,
                known_errors: Seq::<ParseErrorV>::empty(),
            }),
    {
        let known_errors: Vec<ParseError> = Vec::new();
        proof {
            assert(known_errors.deep_view() =~= Seq::<ParseErrorV>::empty());
        }
        ReportCard { sureness, type_friendly_name, family, known_errors }
    }
}

} // verus!
