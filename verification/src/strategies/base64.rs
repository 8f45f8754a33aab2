use vstd::prelude::*;

use crate::families::Family;
use crate::report_card::{ReportCard, ReportCardV, SURENESS_UNIT};
use crate::strategies::strategy::StrategyType;

verus! {

/// Whether the character belongs to the canonical Base64 alphabet.
pub open spec fn is_b64_char(c: char) -> bool {
    ||| ('A' as u32) <= c as u32 <= ('Z' as u32)
    ||| ('a' as u32) <= c as u32 <= ('z' as u32)
    ||| ('0' as u32) <= c as u32 <= ('9' as u32)
    ||| c == '+'
    ||| c == '/'
}

/// The canonical Base64 grammar: zero or more groups of four alphabet
/// characters, then a final group of four alphabet characters, three plus one
/// pad `=`, or two plus two pads `==`. The empty string has no final group and
/// so does not match. This is a purely lexical check: it says nothing about
/// the decoded bytes.
pub open spec fn is_base64_shape(s: Seq<char>) -> bool {
    &&& s.len() >= 4
    &&& s.len() % 4 == 0
    &&& forall|i: int| 0 <= i < s.len() - 2 ==> is_b64_char(#[trigger] s[i])
    &&& {
        ||| (is_b64_char(s[s.len() - 2]) && is_b64_char(s[s.len() - 1]))
        ||| (is_b64_char(s[s.len() - 2]) && s[s.len() - 1] == '=')
        ||| (s[s.len() - 2] == '=' && s[s.len() - 1] == '=')
    }
}

fn b64_char(c: char) -> (r: bool)
    ensures
        r == is_b64_char(c),
{
    let x: u32 = c as u32;
    (('A' as u32) <= x && x <= ('Z' as u32)) || (('a' as u32) <= x && x <= ('z' as u32)) || (('0'
        as u32) <= x && x <= ('9' as u32)) || c == '+' || c == '/'
}

/// Decide whether the whole input matches the Base64 grammar.
fn matches_base64_shape(input: &str) -> (r: bool)
    ensures
        r == is_base64_shape(input@),
{
    let n: usize = input.unicode_len();
    if n < 4 || n % 4 != 0 {
        return false;
    }
    let mut i: usize = 0;
    while i < n - 2
        invariant
            n == input@.len(),
            4 <= n,
            i <= n - 2,
            forall|j: int| 0 <= j < i ==> is_b64_char(#[trigger] input@[j]),
        decreases n - i,
    {
        if !b64_char(input.get_char(i)) {
            return false;
        }
        i = i + 1;
    }
    let next_to_last = input.get_char(n - 2);
    let last = input.get_char(n - 1);
    if b64_char(next_to_last) {
        b64_char(last) || last == '='
    } else {
        next_to_last == '=' && last == '='
    }
}

/// Detects text shaped like canonical Base64. The match is against the whole
/// input and purely lexical; the bytes are never decoded here. The signal is
/// binary: full confidence on a match, none otherwise.
pub struct Base64Strategy {}

impl StrategyType for Base64Strategy {
    open spec fn spec_id(&self) -> Seq<char> {
        "B64_ONLY"@
    }

    open spec fn spec_child_of_id(&self) -> Option<Seq<char>> {
        None
    }

    open spec fn spec_family(&self) -> Family {
        Family::BASE64
    }

    open spec fn spec_parse(&self, input: Seq<char>) -> ReportCardV {
        ReportCardV {
            sureness: if is_base64_shape(input) {
                SURENESS_UNIT
            } else {
                0
            },
            type_friendly_name: "Base64"@,
            family: Family::BASE64,
            known_errors: Seq::<crate::report_card::ParseErrorV>::empty(),
        }
    }

    fn id(&self) -> (r: String) {
        "B64_ONLY".to_owned()
    }

    fn child_of_id(&self) -> (r: Option<String>) {
        None
    }

    fn family(&self) -> (r: Family) {
        Family::BASE64
    }

    fn parse(&self, input: &str) -> (r: ReportCard) {
        let sureness: u32 = if matches_base64_shape(input) {
            SURENESS_UNIT
        } else {
            0
        };
        ReportCard::new(sureness, "Base64".to_owned(), Family::BASE64)
    }
}

} // verus!
