//! The If step (and Else If, Exit Loop If): the step name and its condition.
use vstd::prelude::*;

use crate::script_steps::exit_script::{if_start_line, if_start_outcome};
use crate::xml::{parse_events, xml_events};

verus! {

/// Whether the If step `step` can be shown: each `<Step>` tag has a name.
pub open spec fn if_start_readable(step: Seq<char>) -> bool {
    if_start_outcome(xml_events(step)) is Some
}

/// The line of the If step whose XML is `step`.
pub fn sanitize(step: &str) -> (res: Option<String>)
    requires
        if_start_readable(step@),
    ensures
        Some(res.deep_view()) == if_start_outcome(xml_events(step@)),
{
    let events = parse_events(step);
    match if_start_line(&events) {
        Some(line) => line,
        None => None,
    }
}

/// The line of the If step whose XML is `step`, as [`sanitize`] gives it; `None` where a
/// `<Step>` tag has no name.
pub fn sanitize_checked(step: &str) -> (res: Option<Option<String>>)
    ensures
        res.deep_view() == if_start_outcome(xml_events(step@)),
{
    let events = parse_events(step);
    match if_start_line(&events) {
        Some(_) => Some(sanitize(step)),
        None => None,
    }
}

} // verus!
