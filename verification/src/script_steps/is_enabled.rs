//! Whether a step is enabled.
use vstd::prelude::*;

use crate::script_steps::step_scan::{find_first_step, first_step};
use crate::text::str_eq;
use crate::xml::{first_attribute, get_attribute, parse_events, xml_events, EventView, XmlEvent};

verus! {

/// Whether the step whose events are `evs` is enabled: `true` unless the `enable` of its first
/// `<Step>` tag is `False`, and `true` without a `<Step>` tag; `None` where that tag has no
/// `enable`.
pub open spec fn enabled_outcome(evs: Seq<EventView>) -> Option<bool> {
    match first_step(evs, 0) {
        None => Some(true),
        Some(attributes) => match first_attribute(attributes, "enable"@) {
            Some(v) => Some(v != "False"@),
            None => None,
        },
    }
}

/// Whether the step read from its events is enabled; `None` where its `<Step>` tag has no `enable`.
pub fn enabled_of(events: &Vec<XmlEvent>) -> (res: Option<bool>)
    ensures
        res == enabled_outcome(events.deep_view()),
{
    match find_first_step(events) {
        None => Some(true),
        Some(attributes) => match get_attribute(attributes, "enable") {
            Some(v) => Some(!str_eq(v.as_str(), "False")),
            None => None,
        },
    }
}

/// Whether the step whose XML is `step` can be asked whether it is enabled.
pub open spec fn enabled_readable(step: Seq<char>) -> bool {
    enabled_outcome(xml_events(step)) is Some
}

/// Whether the step whose XML is `step` is enabled.
pub fn sanitize(step: &str) -> (res: bool)
    requires
        enabled_readable(step@),
    ensures
        Some(res) == enabled_outcome(xml_events(step@)),
{
    let events = parse_events(step);
    match enabled_of(&events) {
        Some(b) => b,
        None => true,
    }
}

/// Whether the step whose XML is `step` is enabled, as [`sanitize`] tells; `None` where its
/// `<Step>` tag has no `enable`.
pub fn sanitize_checked(step: &str) -> (res: Option<bool>)
    ensures
        res == enabled_outcome(xml_events(step@)),
{
    let events = parse_events(step);
    match enabled_of(&events) {
        Some(_) => Some(sanitize(step)),
        None => None,
    }
}

} // verus!
