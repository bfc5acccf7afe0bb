//! The Go to Portal Row step: the select option and the row.
use vstd::prelude::*;

use crate::script_steps::parameters::boolean::{on_off_text, Boolean};
use crate::script_steps::step_scan::{calc_scan, keep, never};
use crate::text::{concat3, str_eq};
use crate::xml::{first_attribute, get_attribute, parse_events, xml_events, Attributes, EventView, XmlEvent, XmlReader};

verus! {

/// Step name, select option label, whether it is set, and the row.
pub type PortalRowFields = (Seq<char>, Seq<char>, bool, Seq<char>);

/// `<Step>` sets the step name, `<Boolean>` the option's label and value, `<List>` the row;
/// `None` where the attribute they need is missing.
pub open spec fn portal_row_start() -> spec_fn(PortalRowFields, Seq<char>, Attributes) -> Option<PortalRowFields> {
    |f: PortalRowFields, name: Seq<char>, a: Attributes| if name == "Step"@ {
        match first_attribute(a, "name"@) {
            Some(n) => Some((n, f.1, f.2, f.3)),
            None => None,
        }
    } else if name == "Boolean"@ {
        match (first_attribute(a, "type"@), first_attribute(a, "value"@)) {
            (Some(t), Some(v)) => Some((f.0, t, v == "True"@, f.3)),
            _ => None,
        }
    } else if name == "List"@ {
        match first_attribute(a, "name"@) {
            Some(n) => Some((f.0, f.1, f.2, n)),
            None => None,
        }
    } else {
        Some(f)
    }
}

/// The line of a Go to Portal Row step: `name [ label: ON|OFF ; row ]`; no line without a step name.
pub open spec fn portal_row_outcome(evs: Seq<EventView>) -> Option<Option<Seq<char>>> {
    match calc_scan(evs, 0, (Seq::empty(), Seq::empty(), false, Seq::empty()), never(), keep(), portal_row_start()) {
        None => None,
        Some((step, label, select, row)) => Some(if step.len() == 0 {
            None
        } else {
            Some(step + " [ "@ + label + ": "@ + on_off_text(select) + " ; "@ + row + " ]"@)
        }),
    }
}

/// The line of a Go to Portal Row step read from its events.
pub fn portal_row_line(events: &Vec<XmlEvent>) -> (res: Option<Option<String>>)
    ensures
        res.deep_view() == portal_row_outcome(events.deep_view()),
{
    let ghost evs = events.deep_view();
    let mut reader = XmlReader::new(events);
    let mut step = String::new();
    let mut label = String::new();
    let mut select = false;
    let mut row = String::new();
    loop
        invariant
            reader.events == events,
            evs == reader.evs(),
            reader.pos <= evs.len(),
            calc_scan(evs, reader.pos as int, (step@, label@, select, row@), never(), keep(), portal_row_start())
                == calc_scan(evs, 0, (Seq::empty(), Seq::empty(), false, Seq::empty()), never(), keep(), portal_row_start()),
        ensures
            reader.pos >= evs.len(),
        decreases evs.len() - reader.pos,
    {
        match reader.read_event() {
            None => break,
            Some(event) => match event {
                XmlEvent::Start { name, attributes } => {
                    if str_eq(name.as_str(), "Step") {
                        match get_attribute(attributes, "name") {
                            Some(n) => {
                                step = n;
                            },
                            None => {
                                return None;
                            },
                        }
                    } else if str_eq(name.as_str(), "Boolean") {
                        match (get_attribute(attributes, "type"), get_attribute(attributes, "value")) {
                            (Some(t), Some(v)) => {
                                label = t;
                                select = str_eq(v.as_str(), "True");
                            },
                            _ => {
                                return None;
                            },
                        }
                    } else if str_eq(name.as_str(), "List") {
                        match get_attribute(attributes, "name") {
                            Some(n) => {
                                row = n;
                            },
                            None => {
                                return None;
                            },
                        }
                    }
                },
                _ => {},
            },
        }
    }
    if step.unicode_len() == 0 {
        return Some(None);
    }
    let mut out = concat3(step.as_str(), " [ ", label.as_str());
    out.append(": ");
    out.append(Boolean::on_off(select));
    out.append(" ; ");
    out.append(row.as_str());
    out.append(" ]");
    Some(Some(out))
}

/// Whether the Go to Portal Row step `step` can be shown: its tags have the attributes it reads.
pub open spec fn portal_row_readable(step: Seq<char>) -> bool {
    portal_row_outcome(xml_events(step)) is Some
}

/// The line of the Go to Portal Row step whose XML is `step`.
pub fn sanitize(step: &str) -> (res: Option<String>)
    requires
        portal_row_readable(step@),
    ensures
        Some(res.deep_view()) == portal_row_outcome(xml_events(step@)),
{
    let events = parse_events(step);
    match portal_row_line(&events) {
        Some(line) => line,
        None => None,
    }
}

/// The line of the Go to Portal Row step whose XML is `step`, as [`sanitize`] gives it; `None`
/// where a tag lacks an attribute it reads.
pub fn sanitize_checked(step: &str) -> (res: Option<Option<String>>)
    ensures
        res.deep_view() == portal_row_outcome(xml_events(step@)),
{
    let events = parse_events(step);
    match portal_row_line(&events) {
        Some(_) => Some(sanitize(step)),
        None => None,
    }
}

} // verus!
