use vstd::prelude::*;
use vstd::string::StringExecFns;

use crate::families::Family;
use crate::foreign::{
    b64_decoded, decode_base64, is_json, json_pretty, json_pretty_string, trim_of, trim_str,
    utf8_lossy, utf8_lossy_string,
};
use crate::report_card::{ReportCard, ReportCardV};

verus! {

/// The header every rendered result opens with: the tool names what it thinks
/// the input is, then leaves a blank line before the body.
pub open spec fn header_of(kind: Seq<char>) -> Seq<char> {
    "Scrutey thinks this is "@ + kind + ":\n\n"@
}

/// A full response: the header for the kind, followed immediately by the body,
/// with no trailing separator.
pub open spec fn response_of(kind: Seq<char>, body: Seq<char>) -> Seq<char> {
    header_of(kind) + body
}

/// What `present` renders: with no record, the generic "nonsense" framing
/// around the verbatim input; with a record, a format-specific body under the
/// record's display name, degrading to the verbatim input whenever the format
/// work fails. Rendering never fails.
pub open spec fn present_spec(input: Seq<char>, card: Option<ReportCardV>) -> Seq<char> {
    match card {
        Option::None => response_of("nonsense"@, input),
        Option::Some(c) => match c.family {
            Family::JSON => if is_json(input) {
                response_of(c.type_friendly_name, json_pretty(input))
            } else {
                response_of(c.type_friendly_name, input)
            },
            Family::BASE64 => match b64_decoded(trim_of(input)) {
                Option::Some(bytes) => response_of(c.type_friendly_name, utf8_lossy(bytes)),
                Option::None => response_of(c.type_friendly_name, input),
            },
            Family::UNSTRUCTURED => response_of("nonsense"@, input),
        },
    }
}

/// Build the header naming a kind.
pub fn get_header(t: &str) -> (r: String)
    ensures
        r@ == header_of(t@),
{
    let mut s: String = "Scrutey thinks this is ".to_owned();
    s.append(t);
    s.append(":\n\n");
    s
}

/// Build a full response: header for the kind, then the body.
pub fn get_response(friendly_name: &str, body: &str) -> (r: String)
    ensures
        r@ == response_of(friendly_name@, body@),
{
    let mut s: String = get_header(friendly_name);
    s.append(body);
    s
}

/// Render the input under the top report card, dispatching on its family:
/// JSON is pretty-printed when it parses, Base64 is decoded and read as text
/// when the decode succeeds, and anything else — a missing record, an
/// unstructured family, or a format step that fails — degrades to the
/// verbatim input. The output is a function of the arguments alone.
pub fn present(input: &str, report_card: &Option<ReportCard>) -> (r: String)
    ensures
        r@ == present_spec(input@, report_card.deep_view()),
{
    match report_card {
        Option::None => get_response("nonsense", input),
        Option::Some(card) => match card.family {
            Family::JSON => match json_pretty_string(input) {
                Option::Some(pretty) => get_response(card.type_friendly_name.as_str(), pretty.as_str()),
                Option::None => get_response(card.type_friendly_name.as_str(), input),
            },
            Family::BASE64 => {
                let trimmed: &str = trim_str(input);
                match decode_base64(trimmed) {
                    Option::Some(decoded) => {
                        let text: String = utf8_lossy_string(&decoded);
                        get_response(card.type_friendly_name.as_str(), text.as_str())
                    },
                    Option::None => get_response(card.type_friendly_name.as_str(), input),
                }
            },
            Family::UNSTRUCTURED => get_response("nonsense", input),
        },
    }
}

/// Law: presentation has no hidden state. The rendered text is a function of
/// the input and the record alone, so two calls with equal arguments yield
/// equal output.
pub proof fn lemma_present_depends_on_arguments_alone(
    input1: Seq<char>,
    card1: Option<ReportCardV>,
    input2: Seq<char>,
    card2: Option<ReportCardV>,
)
    requires
        input1 == input2,
        card1 == card2,
    ensures
        present_spec(input1, card1) == present_spec(input2, card2),
{
}

} // verus!
