//! Steps shown by their name alone.
use vstd::prelude::*;

use crate::script_steps::step_scan::{find_first_step, first_step};
use crate::xml::{first_attribute, get_attribute, parse_events, xml_events, EventView, XmlEvent};

verus! {

/// The name of the first `<Step>` tag of `evs`, where it has one.
pub open spec fn primitive_outcome(evs: Seq<EventView>) -> Option<Seq<char>> {
    match first_step(evs, 0) {
        Some(attributes) => first_attribute(attributes, "name"@),
        None => None,
    }
}

/// The line of a step read from its events: the name of its first `<Step>` tag.
pub fn primitive_line(events: &Vec<XmlEvent>) -> (res: Option<String>)
    ensures
        res.deep_view() == primitive_outcome(events.deep_view()),
{
    match find_first_step(events) {
        Some(attributes) => get_attribute(attributes, "name"),
        None => None,
    }
}

/// The line of the step whose XML is `step`: its name.
pub fn sanitize(step: &str) -> (res: Option<String>)
    ensures
        res.deep_view() == primitive_outcome(xml_events(step@)),
{
    let events = parse_events(step);
    primitive_line(&events)
}

} // verus!
