use vstd::prelude::*;

use crate::checker::Checker;
use crate::foreign::{trim_of, trim_str};
use crate::presenter::{present, present_spec};
use crate::report_card::{ReportCard, ReportCardV};

verus! {

/// The position a stable descending sort by confidence puts first: the record
/// at `i` scores at least as high as every record, and strictly higher than
/// every earlier record (ties go to the earliest producer).
pub open spec fn is_top_index(cards: Seq<ReportCardV>, i: int) -> bool {
    &&& 0 <= i < cards.len()
    &&& forall|j: int| 0 <= j < cards.len() ==> (#[trigger] cards[j]).sureness <= cards[i].sureness
    &&& forall|j: int| 0 <= j < i ==> (#[trigger] cards[j]).sureness < cards[i].sureness
}

/// The single record selection picks out of a non-empty run: the earliest
/// record of maximal confidence.
pub open spec fn top_card(cards: Seq<ReportCardV>) -> ReportCardV {
    cards[choose|i: int| is_top_index(cards, i)]
}

/// Every non-empty run has a top record, even when every confidence is zero.
pub proof fn lemma_top_index_exists(cards: Seq<ReportCardV>)
    requires
        cards.len() > 0,
    ensures
        exists|i: int| is_top_index(cards, i),
    decreases cards.len(),
{
    if cards.len() == 1 {
        assert(is_top_index(cards, 0));
    } else {
        let front = cards.drop_last();
        lemma_top_index_exists(front);
        let i = choose|i: int| is_top_index(front, i);
        let last = cards.len() - 1;
        assert(forall|j: int| 0 <= j < front.len() ==> #[trigger] front[j] == cards[j]);
        if cards[last].sureness > cards[i].sureness {
            assert forall|j: int| 0 <= j < cards.len() implies (#[trigger] cards[j]).sureness
                <= cards[last].sureness by {
                if j < last {
                    assert(front[j].sureness <= front[i].sureness);
                }
            }
            assert forall|j: int| 0 <= j < last implies (#[trigger] cards[j]).sureness
                < cards[last].sureness by {
                assert(front[j].sureness <= front[i].sureness);
            }
            assert(is_top_index(cards, last));
        } else {
            assert forall|j: int| 0 <= j < cards.len() implies (#[trigger] cards[j]).sureness
                <= cards[i].sureness by {
                if j < last {
                    assert(front[j].sureness <= front[i].sureness);
                }
            }
            assert forall|j: int| 0 <= j < i implies (#[trigger] cards[j]).sureness
                < cards[i].sureness by {
                assert(front[j].sureness < front[i].sureness);
            }
            assert(is_top_index(cards, i));
        }
    }
}

/// At most one position can be the top: the tie-break is deterministic.
pub proof fn lemma_top_index_unique(cards: Seq<ReportCardV>, i: int, j: int)
    requires
        is_top_index(cards, i),
        is_top_index(cards, j),
    ensures
        i == j,
{
    if i < j {
        assert(cards[i].sureness < cards[j].sureness);
        assert(cards[j].sureness <= cards[i].sureness);
    }
    if j < i {
        assert(cards[j].sureness < cards[i].sureness);
        assert(cards[i].sureness <= cards[j].sureness);
    }
}

/// Law: selection is determined by confidence alone. Of two records, the
/// strictly more confident one is the top, whichever order the registry
/// produced them in.
pub proof fn lemma_selection_determinism(lo: ReportCardV, hi: ReportCardV)
    requires
        lo.sureness < hi.sureness,
    ensures
        top_card(seq![lo, hi]) == hi,
        top_card(seq![hi, lo]) == hi,
{
    let a = seq![lo, hi];
    assert(is_top_index(a, 1));
    lemma_top_index_unique(a, 1, choose|i: int| is_top_index(a, i));
    let b = seq![hi, lo];
    assert(is_top_index(b, 0));
    lemma_top_index_unique(b, 0, choose|i: int| is_top_index(b, i));
}

/// The classify-and-render pipeline. An upstream read error passes through
/// unchanged. Otherwise the input is trimmed once, every strategy of the
/// checker scores the trimmed text, the single top record is selected — the
/// earliest record of maximal confidence, even when every confidence is zero —
/// and the trimmed text is rendered under it. The run fails only on an empty
/// registry, with a fixed internal-error message.
pub fn scrutinize<T: Checker>(input: Result<String, String>, checker: &T) -> (r: Result<
    String,
    String,
>)
    ensures
        input matches Err(e) ==> r == Err::<String, String>(e),
        input matches Ok(s) ==> ({
            let cards = checker.spec_check(trim_of(s@));
            &&& cards.len() == 0 ==> (r matches Err(m) && m@
                == "internal error; checker returned no results"@)
            &&& cards.len() > 0 ==> (r matches Ok(out) && out@ == present_spec(
                trim_of(s@),
                Some(top_card(cards)),
            ))
        }),
{
    let raw_input: String = match input {
        Ok(s) => s,
        Err(e) => {
            return Err(e);
        },
    };
    let string_to_test: &str = trim_str(raw_input.as_str());
    let mut report_cards: Vec<ReportCard> = checker.check(string_to_test);
    let ghost cards = checker.spec_check(trim_of(raw_input@));

    if report_cards.len() < 1 {
        return Err("internal error; checker returned no results".to_owned());
    }
    // pick the top record: the earliest of maximal confidence
    let mut best: usize = 0;
    let mut i: usize = 1;
    while i < report_cards.len()
        invariant
            report_cards.deep_view() == cards,
            cards.len() == report_cards@.len(),
            best < i <= cards.len(),
            forall|j: int| 0 <= j < i ==> (#[trigger] cards[j]).sureness <= cards[best as int].sureness,
            forall|j: int| 0 <= j < best ==> (#[trigger] cards[j]).sureness < cards[best as int].sureness,
        decreases report_cards.len() - i,
    {
        proof {
            assert(cards[i as int] == report_cards@[i as int]@);
            assert(cards[best as int] == report_cards@[best as int]@);
        }
        if report_cards[i].sureness > report_cards[best].sureness {
            best = i;
        }
        i = i + 1;
    }
    proof {
        assert(is_top_index(cards, best as int));
        lemma_top_index_unique(cards, best as int, choose|k: int| is_top_index(cards, k));
        assert(top_card(cards) == cards[best as int]);
    }
    let top: ReportCard = report_cards.remove(best);
    let top_result: Option<ReportCard> = Some(top);
    proof {
        assert(top_result.deep_view() == Some(top_card(cards)));
    }
    let formatted_result: String = present(string_to_test, &top_result);
    Ok(formatted_result)
}

} // verus!
