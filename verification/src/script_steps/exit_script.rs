//! Steps shown with one formula: Exit Script and If.
use vstd::prelude::*;

use crate::script_steps::step_scan::{at_calculation, calc_scan, raw_formula, read_formula};
use crate::text::{concat, concat3, str_eq};
use crate::xml::{first_attribute, get_attribute, parse_events, xml_events, Attributes, EventView, XmlEvent, XmlReader};

verus! {

/// A calculation sets the formula.
pub open spec fn formula_calc() -> spec_fn((Seq<char>, Seq<char>), Seq<char>, Attributes, Option<Seq<char>>) -> Option<(Seq<char>, Seq<char>)> {
    |f: (Seq<char>, Seq<char>), name: Seq<char>, a: Attributes, calc: Option<Seq<char>>| Some((f.0, raw_formula(calc)))
}

/// A `<Step>` tag sets the step name; `None` where it has none.
pub open spec fn named_step_start() -> spec_fn((Seq<char>, Seq<char>), Seq<char>, Attributes) -> Option<(Seq<char>, Seq<char>)> {
    |f: (Seq<char>, Seq<char>), name: Seq<char>, a: Attributes| if name == "Step"@ {
        match first_attribute(a, "name"@) {
            Some(n) => Some((n, f.1)),
            None => None,
        }
    } else {
        Some(f)
    }
}

/// The step name and the last formula of a step; `None` where a `<Step>` tag has no name.
pub open spec fn name_and_formula(evs: Seq<EventView>) -> Option<(Seq<char>, Seq<char>)> {
    calc_scan(evs, 0, (Seq::empty(), Seq::empty()), at_calculation(), formula_calc(), named_step_start())
}

/// Reads the step name and the last formula of a step from its events; `None` where a `<Step>`
/// tag has no name.
pub fn read_name_and_formula(events: &Vec<XmlEvent>) -> (res: Option<(String, String)>)
    ensures
        match name_and_formula(events.deep_view()) {
            Some((name, formula)) => res matches Some((n, f)) && n@ == name && f@ == formula,
            None => res is None,
        },
{
    let ghost evs = events.deep_view();
    let mut reader = XmlReader::new(events);
    let mut name = String::new();
    let mut formula = String::new();
    loop
        invariant
            reader.events == events,
            evs == reader.evs(),
            reader.pos <= evs.len(),
            calc_scan(evs, reader.pos as int, (name@, formula@), at_calculation(), formula_calc(), named_step_start())
                == name_and_formula(evs),
        ensures
            reader.pos >= evs.len(),
        decreases evs.len() - reader.pos,
    {
        match reader.read_event() {
            None => break,
            Some(event) => match event {
                XmlEvent::Start { name: tag, attributes } => {
                    if str_eq(tag.as_str(), "Calculation") {
                        formula = read_formula(&mut reader, event);
                    } else if str_eq(tag.as_str(), "Step") {
                        match get_attribute(attributes, "name") {
                            Some(n) => {
                                name = n;
                            },
                            None => {
                                return None;
                            },
                        }
                    }
                },
                _ => {},
            },
        }
    }
    Some((name, formula))
}

/// The line of an Exit Script step: `name [ formula ]`, `name []` without a formula; `None`
/// (as the outer value) where a `<Step>` tag has no name, and no line without a step name.
pub open spec fn exit_script_outcome(evs: Seq<EventView>) -> Option<Option<Seq<char>>> {
    match name_and_formula(evs) {
        None => None,
        Some((name, formula)) => Some(if name.len() == 0 {
            None
        } else if formula.len() == 0 {
            Some(name + " []"@)
        } else {
            Some(name + " [ "@ + formula + " ]"@)
        }),
    }
}

/// The line of an Exit Script step read from its events.
pub fn exit_script_line(events: &Vec<XmlEvent>) -> (res: Option<Option<String>>)
    ensures
        res.deep_view() == exit_script_outcome(events.deep_view()),
{
    match read_name_and_formula(events) {
        None => None,
        Some((name, formula)) => Some(if name.unicode_len() == 0 {
            None
        } else if formula.unicode_len() == 0 {
            Some(concat(name.as_str(), " []"))
        } else {
            Some(concat3(name.as_str(), " [ ", concat(formula.as_str(), " ]").as_str()))
        }),
    }
}

/// Whether the Exit Script step `step` can be shown: each `<Step>` tag has a name.
pub open spec fn exit_script_readable(step: Seq<char>) -> bool {
    exit_script_outcome(xml_events(step)) is Some
}

/// The line of the Exit Script step whose XML is `step`.
pub fn sanitize(step: &str) -> (res: Option<String>)
    requires
        exit_script_readable(step@),
    ensures
        Some(res.deep_view()) == exit_script_outcome(xml_events(step@)),
{
    let events = parse_events(step);
    match exit_script_line(&events) {
        Some(line) => line,
        None => None,
    }
}

/// The line of the Exit Script step whose XML is `step`, as [`sanitize`] gives it; `None` where
/// a `<Step>` tag has no name.
pub fn sanitize_checked(step: &str) -> (res: Option<Option<String>>)
    ensures
        res.deep_view() == exit_script_outcome(xml_events(step@)),
{
    let events = parse_events(step);
    match exit_script_line(&events) {
        Some(_) => Some(sanitize(step)),
        None => None,
    }
}

/// The line of an If step: `name [ formula ]`; `None` (as the outer value) where a `<Step>` tag
/// has no name, and no line without a step name.
pub open spec fn if_start_outcome(evs: Seq<EventView>) -> Option<Option<Seq<char>>> {
    match name_and_formula(evs) {
        None => None,
        Some((name, formula)) => Some(if name.len() == 0 {
            None
        } else {
            Some(name + " [ "@ + formula + " ]"@)
        }),
    }
}

/// The line of an If step read from its events.
pub fn if_start_line(events: &Vec<XmlEvent>) -> (res: Option<Option<String>>)
    ensures
        res.deep_view() == if_start_outcome(events.deep_view()),
{
    match read_name_and_formula(events) {
        None => None,
        Some((name, formula)) => Some(if name.unicode_len() == 0 {
            None
        } else {
            Some(concat3(name.as_str(), " [ ", concat(formula.as_str(), " ]").as_str()))
        }),
    }
}

} // verus!
