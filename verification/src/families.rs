use vstd::prelude::*;

verus! {

/// The closed set of format families a strategy can detect. The renderer
/// dispatches on this tag; the display name on a report card is presentation
/// only and never drives dispatch.
#[derive(Debug, Clone, Copy, PartialEq, Eq, Structural)]
pub enum Family {
    JSON,
    BASE64,
    UNSTRUCTURED,
}

} // verus!
