//! The Omit Multiple Records step: its dialog option and the number of records.
use vstd::prelude::*;

use crate::script_steps::parameters::boolean::{on_off_text, Boolean};
use crate::script_steps::parameters::calculation::calculation_display;
use crate::script_steps::step_scan::{at_calculation, calc_scan, read_calculation_display};
use crate::text::{concat, concat3, str_eq};
use crate::xml::{attribute_is, first_attribute, get_attribute, parse_events, xml_events, Attributes, EventView, XmlEvent, XmlReader};

verus! {

/// Step name, option name, whether it is set, and the number formula.
pub type OmitFields = (Seq<char>, Seq<char>, bool, Seq<char>);

/// A calculation sets the number; `None` where its formula is empty.
pub open spec fn omit_calc() -> spec_fn(OmitFields, Seq<char>, Attributes, Option<Seq<char>>) -> Option<OmitFields> {
    |f: OmitFields, name: Seq<char>, a: Attributes, calc: Option<Seq<char>>| match calculation_display(calc) {
        Some(c) => Some((f.0, f.1, f.2, c)),
        None => None,
    }
}

/// `<Step>` sets the step name, `<Boolean>` the option's name and whether it is `True` (each
/// empty where missing).
pub open spec fn omit_start() -> spec_fn(OmitFields, Seq<char>, Attributes) -> Option<OmitFields> {
    |f: OmitFields, name: Seq<char>, a: Attributes| if name == "Step"@ {
        Some((match first_attribute(a, "name"@) {
            Some(n) => n,
            None => Seq::empty(),
        }, f.1, f.2, f.3))
    } else if name == "Boolean"@ {
        Some((f.0, match first_attribute(a, "type"@) {
            Some(t) => t,
            None => Seq::empty(),
        }, first_attribute(a, "value"@) == Some("True"@), f.3))
    } else {
        Some(f)
    }
}

/// The line of an Omit Multiple Records step: `name []` without option and number, else
/// `name [ option: ON|OFF ; number ]` (without the number where it is empty).
pub open spec fn omit_outcome(evs: Seq<EventView>) -> Option<Seq<char>> {
    match calc_scan(evs, 0, (Seq::empty(), Seq::empty(), false, Seq::empty()), at_calculation(), omit_calc(), omit_start()) {
        None => None,
        Some((step, option, on, number)) => Some(if option.len() == 0 && number.len() == 0 {
            step + " []"@
        } else if number.len() > 0 {
            step + " [ "@ + option + ": "@ + on_off_text(on) + " ; "@ + number + " ]"@
        } else {
            step + " [ "@ + option + ": "@ + on_off_text(on) + " ]"@
        }),
    }
}

/// The line of an Omit Multiple Records step read from its events; `None` where a calculation
/// in it is empty.
pub fn omit_line(events: &Vec<XmlEvent>) -> (res: Option<String>)
    ensures
        res.deep_view() == omit_outcome(events.deep_view()),
{
    let ghost evs = events.deep_view();
    let mut reader = XmlReader::new(events);
    let mut step = String::new();
    let mut option = String::new();
    let mut on = false;
    let mut number = String::new();
    loop
        invariant
            reader.events == events,
            evs == reader.evs(),
            reader.pos <= evs.len(),
            calc_scan(evs, reader.pos as int, (step@, option@, on, number@), at_calculation(), omit_calc(), omit_start())
                == calc_scan(evs, 0, (Seq::empty(), Seq::empty(), false, Seq::empty()), at_calculation(), omit_calc(), omit_start()),
        ensures
            reader.pos >= evs.len(),
        decreases evs.len() - reader.pos,
    {
        match reader.read_event() {
            None => break,
            Some(event) => match event {
                XmlEvent::Start { name, attributes } => {
                    if str_eq(name.as_str(), "Calculation") {
                        match read_calculation_display(&mut reader, event) {
                            Some(c) => {
                                number = c;
                            },
                            None => {
                                return None;
                            },
                        }
                    } else if str_eq(name.as_str(), "Step") {
                        step = match get_attribute(attributes, "name") {
                            Some(n) => n,
                            None => String::new(),
                        };
                    } else if str_eq(name.as_str(), "Boolean") {
                        option = match get_attribute(attributes, "type") {
                            Some(t) => t,
                            None => String::new(),
                        };
                        on = attribute_is(attributes, "value", "True");
                    }
                },
                _ => {},
            },
        }
    }
    if option.unicode_len() == 0 && number.unicode_len() == 0 {
        return Some(concat(step.as_str(), " []"));
    }
    let mut out = concat3(step.as_str(), " [ ", option.as_str());
    out.append(": ");
    out.append(Boolean::on_off(on));
    if number.unicode_len() > 0 {
        out.append(" ; ");
        out.append(number.as_str());
    }
    out.append(" ]");
    Some(out)
}

/// Whether the Omit Multiple Records step `step` can be shown: no calculation in it is empty.
pub open spec fn omit_readable(step: Seq<char>) -> bool {
    omit_outcome(xml_events(step)) is Some
}

/// The line of the Omit Multiple Records step whose XML is `step`.
pub fn sanitize(step: &str) -> (res: Option<String>)
    requires
        omit_readable(step@),
    ensures
        res.deep_view() == omit_outcome(xml_events(step@)),
{
    let events = parse_events(step);
    omit_line(&events)
}

/// The line of the Omit Multiple Records step whose XML is `step`, as [`sanitize`] gives it;
/// `None` where a calculation in it is empty.
pub fn sanitize_checked(step: &str) -> (res: Option<String>)
    ensures
        res.deep_view() == omit_outcome(xml_events(step@)),
{
    let events = parse_events(step);
    match omit_line(&events) {
        Some(_) => sanitize(step),
        None => None,
    }
}

} // verus!
