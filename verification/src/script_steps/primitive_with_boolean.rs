//! Steps with one option: the option's name and whether it is on.
use vstd::prelude::*;

use crate::script_steps::parameters::boolean::{on_off_text, Boolean};
use crate::script_steps::step_scan::{calc_scan, keep, never};
use crate::text::{concat, concat3, str_eq};
use crate::xml::{first_attribute, get_attribute, parse_events, xml_events, Attributes, EventView, XmlEvent, XmlReader};

verus! {

/// `<Step>` with a name sets the step name; `<Boolean>` sets the option's name (where it has a
/// `type`) and, by its `value` (`True` or `False`), whether it is on; `None` without a `value`.
pub open spec fn one_option_start() -> spec_fn((Seq<char>, Seq<char>, bool), Seq<char>, Attributes) -> Option<(Seq<char>, Seq<char>, bool)> {
    |f: (Seq<char>, Seq<char>, bool), name: Seq<char>, a: Attributes| if name == "Step"@ {
        match first_attribute(a, "name"@) {
            Some(n) => Some((n, f.1, f.2)),
            None => Some(f),
        }
    } else if name == "Boolean"@ {
        let option = match first_attribute(a, "type"@) {
            Some(t) => t,
            None => f.1,
        };
        match first_attribute(a, "value"@) {
            Some(v) => Some((f.0, option, if v == "True"@ { true } else if v == "False"@ { false } else { f.2 })),
            None => None,
        }
    } else {
        Some(f)
    }
}

/// The line of a step with one option: `name [ option: ON|OFF ]`, or `name [ ON|OFF ]` where the
/// option has no name.
pub open spec fn one_option_outcome(evs: Seq<EventView>) -> Option<Seq<char>> {
    match calc_scan(evs, 0, (Seq::empty(), Seq::empty(), false), never(), keep(), one_option_start()) {
        None => None,
        Some((step, option, on)) => Some(if option.len() == 0 {
            step + " [ "@ + on_off_text(on) + " ]"@
        } else {
            step + " [ "@ + option + ": "@ + on_off_text(on) + " ]"@
        }),
    }
}

/// The line of a step with one option, read from its events; `None` where the option has no value.
pub fn one_option_line(events: &Vec<XmlEvent>) -> (res: Option<String>)
    ensures
        res.deep_view() == one_option_outcome(events.deep_view()),
{
    let ghost evs = events.deep_view();
    let mut reader = XmlReader::new(events);
    let mut step = String::new();
    let mut option = String::new();
    let mut on = false;
    loop
        invariant
            reader.events == events,
            evs == reader.evs(),
            reader.pos <= evs.len(),
            calc_scan(evs, reader.pos as int, (step@, option@, on), never(), keep(), one_option_start())
                == calc_scan(evs, 0, (Seq::empty(), Seq::empty(), false), never(), keep(), one_option_start()),
        ensures
            reader.pos >= evs.len(),
        decreases evs.len() - reader.pos,
    {
        match reader.read_event() {
            None => break,
            Some(event) => match event {
                XmlEvent::Start { name, attributes } => {
                    if str_eq(name.as_str(), "Step") {
                        if let Some(n) = get_attribute(attributes, "name") {
                            step = n;
                        }
                    } else if str_eq(name.as_str(), "Boolean") {
                        if let Some(t) = get_attribute(attributes, "type") {
                            option = t;
                        }
                        match get_attribute(attributes, "value") {
                            Some(v) => {
                                if str_eq(v.as_str(), "True") {
                                    on = true;
                                } else if str_eq(v.as_str(), "False") {
                                    on = false;
                                }
                            },
                            None => {
                                return None;
                            },
                        }
                    }
                },
                _ => {},
            },
        }
    }
    if option.unicode_len() == 0 {
        Some(concat3(step.as_str(), " [ ", concat(Boolean::on_off(on), " ]").as_str()))
    } else {
        let mut out = concat3(step.as_str(), " [ ", option.as_str());
        out.append(": ");
        out.append(Boolean::on_off(on));
        out.append(" ]");
        Some(out)
    }
}

/// Whether the step `step` can be shown: its option has a value.
pub open spec fn one_option_readable(step: Seq<char>) -> bool {
    one_option_outcome(xml_events(step)) is Some
}

/// The line of the step with one option whose XML is `step`.
pub fn sanitize(step: &str) -> (res: Option<String>)
    requires
        one_option_readable(step@),
    ensures
        res.deep_view() == one_option_outcome(xml_events(step@)),
{
    let events = parse_events(step);
    one_option_line(&events)
}

/// The line of the step with one option whose XML is `step`, as [`sanitize`] gives it;
/// `None` where its option has no value.
pub fn sanitize_checked(step: &str) -> (res: Option<String>)
    ensures
        res.deep_view() == one_option_outcome(xml_events(step@)),
{
    let events = parse_events(step);
    match one_option_line(&events) {
        Some(_) => sanitize(step),
        None => None,
    }
}

} // verus!
