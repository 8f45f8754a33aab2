use vstd::prelude::*;

use crate::families::Family;
use crate::report_card::{ReportCard, ReportCardV};

verus! {

/// The polymorphic unit of detection: given raw input, a strategy produces
/// exactly one report card. `parse` is total over all strings; a failed match
/// is a zero confidence score, never an error. Each strategy also carries
/// identity metadata: a unique id, and optionally the id of a parent strategy
/// whose format it specialises (inert for selection and rendering today, but
/// kept queryable).
pub trait StrategyType: Sized {
    /// The id as a mathematical value. This and the other spec methods are
    /// left unspecified until an implementor gives them; an implementation
    /// outside the library that keeps the defaults promises nothing about
    /// what the executable methods return.
    open spec fn spec_id(&self) -> Seq<char> {
        vstd::pervasive::arbitrary()
    }

    /// The parent id as a mathematical value.
    open spec fn spec_child_of_id(&self) -> Option<Seq<char>> {
        vstd::pervasive::arbitrary()
    }

    /// The family this strategy detects.
    open spec fn spec_family(&self) -> Family {
        vstd::pervasive::arbitrary()
    }

    /// The report card this strategy produces for a given input.
    open spec fn spec_parse(&self, input: Seq<char>) -> ReportCardV {
        vstd::pervasive::arbitrary()
    }

    /// Stable unique identifier, used for registry membership tests.
    fn id(&self) -> (r: String)
        ensures
            r@ == self.spec_id(),
    ;

    /// The id of the parent format this strategy specialises, if any.
    fn child_of_id(&self) -> (r: Option<String>)
        ensures
            r is Some == self.spec_child_of_id() is Some,
            r matches Some(s) ==> self.spec_child_of_id() == Some(s@),
    ;

    /// The format family, used by the renderer to pick a rendering path.
    fn family(&self) -> (r: Family)
        ensures
            r == self.spec_family(),
    ;

    /// Score the input. Total: every string gets a report card.
    fn parse(&self, input: &str) -> (r: ReportCard)
        ensures
            r@ == self.spec_parse(input@),
    ;
}

} // verus!
