//! The Close Window step: the window's name and whether only the current file's windows close.
use vstd::prelude::*;

use crate::script_steps::step_scan::{at_calculation, calc_scan, raw_formula, read_formula};
use crate::text::{concat, concat3, str_eq};
use crate::xml::{first_attribute, get_attribute, parse_events, xml_events, Attributes, EventView, XmlEvent, XmlReader};

verus! {

/// Step name, window name formula, and whether only the current file is meant.
pub type CloseWindowFields = (Seq<char>, Seq<char>, bool);

/// A calculation sets the window name.
pub open spec fn close_window_calc() -> spec_fn(CloseWindowFields, Seq<char>, Attributes, Option<Seq<char>>) -> Option<CloseWindowFields> {
    |f: CloseWindowFields, name: Seq<char>, a: Attributes, calc: Option<Seq<char>>| Some((f.0, raw_formula(calc), f.2))
}

/// A `<Step>` tag sets the step name, a `<Name>` tag whether only the current file is meant
/// (by its `current`); `None` where the one has no name or the other no `current`.
pub open spec fn close_window_start() -> spec_fn(CloseWindowFields, Seq<char>, Attributes) -> Option<CloseWindowFields> {
    |f: CloseWindowFields, name: Seq<char>, a: Attributes| if name == "Step"@ {
        match first_attribute(a, "name"@) {
            Some(n) => Some((n, f.1, f.2)),
            None => None,
        }
    } else if name == "Name"@ {
        match first_attribute(a, "current"@) {
            Some(c) => Some((f.0, f.1, if c == "True"@ { true } else if c == "False"@ { false } else { f.2 })),
            None => None,
        }
    } else {
        Some(f)
    }
}

/// The line of a Close Window step: `name [ Name: formula ]`, with `; Current file` where only
/// the current file is meant; the bare name without a formula; no line without a step name.
pub open spec fn close_window_outcome(evs: Seq<EventView>) -> Option<Option<Seq<char>>> {
    match calc_scan(evs, 0, (Seq::empty(), Seq::empty(), false), at_calculation(), close_window_calc(), close_window_start()) {
        None => None,
        Some((name, formula, current)) => Some(if name.len() == 0 {
            None
        } else if formula.len() == 0 {
            Some(name)
        } else if current {
            Some(name + " [ Name: "@ + formula + " ; Current file ]"@)
        } else {
            Some(name + " [ Name: "@ + formula + " ]"@)
        }),
    }
}

/// The line of a Close Window step read from its events.
pub fn close_window_line(events: &Vec<XmlEvent>) -> (res: Option<Option<String>>)
    ensures
        res.deep_view() == close_window_outcome(events.deep_view()),
{
    let ghost evs = events.deep_view();
    let mut reader = XmlReader::new(events);
    let mut name = String::new();
    let mut formula = String::new();
    let mut current = false;
    loop
        invariant
            reader.events == events,
            evs == reader.evs(),
            reader.pos <= evs.len(),
            calc_scan(evs, reader.pos as int, (name@, formula@, current), at_calculation(), close_window_calc(), close_window_start())
                == calc_scan(evs, 0, (Seq::empty(), Seq::empty(), false), at_calculation(), close_window_calc(), close_window_start()),
        ensures
            reader.pos >= evs.len(),
        decreases evs.len() - reader.pos,
    {
        match reader.read_event() {
            None => break,
            Some(event) => match event {
                XmlEvent::Start { name: tag, attributes } => {
                    if str_eq(tag.as_str(), "Calculation") {
                        formula = read_formula(&mut reader, event);
                    } else if str_eq(tag.as_str(), "Step") {
                        match get_attribute(attributes, "name") {
                            Some(n) => {
                                name = n;
                            },
                            None => {
                                return None;
                            },
                        }
                    } else if str_eq(tag.as_str(), "Name") {
                        match get_attribute(attributes, "current") {
                            Some(c) => {
                                if str_eq(c.as_str(), "True") {
                                    current = true;
                                } else if str_eq(c.as_str(), "False") {
                                    current = false;
                                }
                            },
                            None => {
                                return None;
                            },
                        }
                    }
                },
                _ => {},
            },
        }
    }
    Some(if name.unicode_len() == 0 {
        None
    } else if formula.unicode_len() == 0 {
        Some(name)
    } else if current {
        Some(concat3(name.as_str(), " [ Name: ", concat(formula.as_str(), " ; Current file ]").as_str()))
    } else {
        Some(concat3(name.as_str(), " [ Name: ", concat(formula.as_str(), " ]").as_str()))
    })
}

/// Whether the Close Window step `step` can be shown: each `<Step>` tag has a name and each
/// `<Name>` tag a `current`.
pub open spec fn close_window_readable(step: Seq<char>) -> bool {
    close_window_outcome(xml_events(step)) is Some
}

/// The line of the Close Window step whose XML is `step`.
pub fn sanitize(step: &str) -> (res: Option<String>)
    requires
        close_window_readable(step@),
    ensures
        Some(res.deep_view()) == close_window_outcome(xml_events(step@)),
{
    let events = parse_events(step);
    match close_window_line(&events) {
        Some(line) => line,
        None => None,
    }
}

/// The line of the Close Window step whose XML is `step`, as [`sanitize`] gives it; `None`
/// where it cannot be shown.
pub fn sanitize_checked(step: &str) -> (res: Option<Option<String>>)
    ensures
        res.deep_view() == close_window_outcome(xml_events(step@)),
{
    let events = parse_events(step);
    match close_window_line(&events) {
        Some(_) => Some(sanitize(step)),
        None => None,
    }
}

} // verus!
