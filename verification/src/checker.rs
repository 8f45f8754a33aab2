use vstd::prelude::*;

use crate::families::Family;
use crate::report_card::{ReportCard, ReportCardV, SURENESS_UNIT};
use crate::strategies::base64::Base64Strategy;
use crate::strategies::json::JsonStrategy;
use crate::strategies::strategy::StrategyType;

verus! {

/// One entry of the registry: any of the strategies that can be registered
/// with a `NaiveChecker`. A new detector joins the registry by adding a
/// variant here and dispatching to it below.
pub enum BuiltinStrategy {
    Base64(Base64Strategy),
    Json(JsonStrategy),
}

impl StrategyType for BuiltinStrategy {
    open spec fn spec_id(&self) -> Seq<char> {
        match self {
            BuiltinStrategy::Base64(s) => s.spec_id(),
            BuiltinStrategy::Json(s) => s.spec_id(),
        }
    }

    open spec fn spec_child_of_id(&self) -> Option<Seq<char>> {
        match self {
            BuiltinStrategy::Base64(s) => s.spec_child_of_id(),
            BuiltinStrategy::Json(s) => s.spec_child_of_id(),
        }
    }

    open spec fn spec_family(&self) -> Family {
        match self {
            BuiltinStrategy::Base64(s) => s.spec_family(),
            BuiltinStrategy::Json(s) => s.spec_family(),
        }
    }

    open spec fn spec_parse(&self, input: Seq<char>) -> ReportCardV {
        match self {
            BuiltinStrategy::Base64(s) => s.spec_parse(input),
            BuiltinStrategy::Json(s) => s.spec_parse(input),
        }
    }

    fn id(&self) -> (r: String) {
        match self {
            BuiltinStrategy::Base64(s) => s.id(),
            BuiltinStrategy::Json(s) => s.id(),
        }
    }

    fn child_of_id(&self) -> (r: Option<String>) {
        match self {
            BuiltinStrategy::Base64(s) => s.child_of_id(),
            BuiltinStrategy::Json(s) => s.child_of_id(),
        }
    }

    fn family(&self) -> (r: Family) {
        match self {
            BuiltinStrategy::Base64(s) => s.family(),
            BuiltinStrategy::Json(s) => s.family(),
        }
    }

    fn parse(&self, input: &str) -> (r: ReportCard) {
        match self {
            BuiltinStrategy::Base64(s) => s.parse(input),
            BuiltinStrategy::Json(s) => s.parse(input),
        }
    }
}

/// Fans one input out to a set of strategies and collects every resulting
/// report card. A checker never filters, reorders or drops a result.
pub trait Checker {
    /// The report cards a run over this checker yields: one per strategy, in
    /// registry order, never sorted by confidence. Left unspecified until an
    /// implementor gives it; an implementation outside the library that keeps
    /// the default promises nothing about what `check` returns.
    open spec fn spec_check(&self, input: Seq<char>) -> Seq<ReportCardV> {
        vstd::pervasive::arbitrary()
    }

    /// Run every registered strategy against the input.
    fn check(&self, input: &str) -> (r: Vec<ReportCard>)
        ensures
            r.deep_view() == self.spec_check(input@),
    ;
}

/// The default checker: an ordered registry of built-in strategies, fixed at
/// construction, consulted in order on every run.
pub struct NaiveChecker {
    pub strategy_register: Vec<BuiltinStrategy>,
}

impl Checker for NaiveChecker {
    open spec fn spec_check(&self, input: Seq<char>) -> Seq<ReportCardV> {
        Seq::new(
            self.strategy_register@.len(),
            |i: int| self.strategy_register@[i].spec_parse(input),
        )
    }

    fn check(&self, input: &str) -> (r: Vec<ReportCard>) {
        let mut out: Vec<ReportCard> = Vec::new();
        let mut i: usize = 0;
        while i < self.strategy_register.len()
            invariant
                i <= self.strategy_register.len(),
                out@.len() == i,
                forall|j: int|
                    0 <= j < i ==> (#[trigger] out@[j])@ == self.strategy_register@[j].spec_parse(
                        input@,
                    ),
            decreases self.strategy_register.len() - i,
        {
            let card = self.strategy_register[i].parse(input);
            out.push(card);
            i = i + 1;
        }
        proof {
            assert forall|j: int| 0 <= j < out@.len() implies out.deep_view()[j] == self.spec_check(
                input@,
            )[j] by {
                assert(out.deep_view()[j] == out@[j]@);
            }
            assert(out.deep_view() =~= self.spec_check(input@));
        }
        out
    }
}

impl NaiveChecker {
    /// The default registry: the Base64 strategy, then the JSON strategy.
    pub fn new() -> (r: Self)
        ensures
            r.strategy_register@.len() == 2,
            r.strategy_register@[0] == (BuiltinStrategy::Base64(Base64Strategy {})),
            r.strategy_register@[1] == (BuiltinStrategy::Json(JsonStrategy {})),
    {
        let mut reg: Vec<BuiltinStrategy> = Vec::new();
        reg.push(BuiltinStrategy::Base64(Base64Strategy {}));
        reg.push(BuiltinStrategy::Json(JsonStrategy {}));
        NaiveChecker { strategy_register: reg }
    }
}

/// Law: one run of a `NaiveChecker` yields exactly one report card per
/// registered strategy, in registry order, and every built-in strategy keeps
/// its confidence inside `[0, SURENESS_UNIT]` — in fact the built-in signals
/// are binary: no confidence but `0` and `SURENESS_UNIT` is ever produced.
pub proof fn lemma_check_one_card_per_strategy(checker: NaiveChecker, input: Seq<char>)
    ensures
        checker.spec_check(input).len() == checker.strategy_register@.len(),
        forall|i: int|
            0 <= i < checker.strategy_register@.len() ==> checker.spec_check(input)[i]
                == checker.strategy_register@[i].spec_parse(input),
        forall|i: int|
            0 <= i < checker.spec_check(input).len() ==> ((#[trigger] checker.spec_check(
                input,
            )[i]).sureness == 0 || checker.spec_check(input)[i].sureness == SURENESS_UNIT),
{
    assert forall|i: int|
        0 <= i < checker.spec_check(input).len() implies ((#[trigger] checker.spec_check(
        input,
    )[i]).sureness == 0 || checker.spec_check(input)[i].sureness == SURENESS_UNIT) by {
        match checker.strategy_register@[i] {
            BuiltinStrategy::Base64(s) => {
                assert(s.spec_parse(input).sureness == 0 || s.spec_parse(input).sureness
                    == SURENESS_UNIT);
            },
            BuiltinStrategy::Json(s) => {
                assert(s.spec_parse(input).sureness == 0 || s.spec_parse(input).sureness
                    == SURENESS_UNIT);
            },
        }
    }
}

} // verus!
