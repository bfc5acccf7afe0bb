//! Steps shown with their parameter lists.
use vstd::prelude::*;

use crate::script_steps::sanitize::{sanitize_scan_events, step_scan};
use crate::text::{concat, concat3, join, join_seq};
use crate::xml::{parse_events, xml_events, EventView, XmlEvent};

verus! {

/// The line of a step with parameter lists (read as those of no known step kind):
/// `name [ lists ]`, or `name []` without lists; `None` where a comment does not unescape.
pub open spec fn with_parameters_outcome(evs: Seq<EventView>) -> Option<Seq<char>> {
    match step_scan(evs, 0, 0, Seq::empty(), Seq::empty()) {
        None => None,
        Some((name, lists)) => Some(if lists.len() == 0 {
            name + " []"@
        } else {
            name + " [ "@ + join_seq(lists, " ; "@) + " ]"@
        }),
    }
}

/// The line of a step with parameter lists, read from its events.
pub fn with_parameters_line(events: &Vec<XmlEvent>) -> (res: Option<String>)
    ensures
        res.deep_view() == with_parameters_outcome(events.deep_view()),
{
    match sanitize_scan_events(0, events) {
        None => None,
        Some((name, lists)) => Some(if lists.len() == 0 {
            concat(name.as_str(), " []")
        } else {
            concat3(name.as_str(), " [ ", concat(join(&lists, " ; ").as_str(), " ]").as_str())
        }),
    }
}

/// Whether the step `step` can be shown: each comment in it unescapes.
pub open spec fn with_parameters_readable(step: Seq<char>) -> bool {
    with_parameters_outcome(xml_events(step)) is Some
}

/// The line of the step whose XML is `step`.
pub fn sanitize(step: &str) -> (res: Option<String>)
    requires
        with_parameters_readable(step@),
    ensures
        res.deep_view() == with_parameters_outcome(xml_events(step@)),
{
    let events = parse_events(step);
    with_parameters_line(&events)
}

/// The line of the step whose XML is `step`, as [`sanitize`] gives it; `None` where a comment
/// in it does not unescape.
pub fn sanitize_checked(step: &str) -> (res: Option<String>)
    ensures
        res.deep_view() == with_parameters_outcome(xml_events(step@)),
{
    let events = parse_events(step);
    match with_parameters_line(&events) {
        Some(_) => sanitize(step),
        None => None,
    }
}

} // verus!
