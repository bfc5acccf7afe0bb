//! The Go to Field step: the select option, where set, and the fields.
use vstd::prelude::*;

use crate::script_steps::parameters::field_reference::{field_display, field_scan, field_steps, FieldReference};
use crate::text::{concat, concat3, str_eq};
use crate::xml::{event_attribute, first_attribute, get_attribute, lemma_element_fold_bounds, parse_events, xml_events, EventView, XmlEvent, XmlReader};

verus! {

/// Step name, select label, whether select is set, and the fields read so far.
pub type GoToFieldFields = (Seq<char>, Seq<char>, bool, Seq<char>);

/// Reads a Go to Field step's events from `pos` on: `<Step>` sets the step name (`None` where it
/// has none); `<Boolean>` sets the select label (where it has a `type`) and, by its `value`,
/// whether select is set (`None` without a `value`); each field reference is read whole and
/// added to the fields.
pub open spec fn go_to_field_scan(evs: Seq<EventView>, pos: int, f: GoToFieldFields) -> Option<GoToFieldFields>
    decreases evs.len() - pos,
{
    if pos < 0 || pos >= evs.len() {
        Some(f)
    } else {
        let (step, label, on, fields) = f;
        match evs[pos] {
            EventView::Start(name, attributes) => if name == "Step"@ {
                match first_attribute(attributes, "name"@) {
                    Some(n) => go_to_field_scan(evs, pos + 1, (n, label, on, fields)),
                    None => None,
                }
            } else if name == "Boolean"@ {
                let next_label = match first_attribute(attributes, "type"@) {
                    Some(t) => t,
                    None => label,
                };
                match first_attribute(attributes, "value"@) {
                    Some(v) => go_to_field_scan(evs, pos + 1, (step, next_label,
                        if v == "True"@ { true } else if v == "False"@ { false } else { on }, fields)),
                    None => None,
                }
            } else if name == "FieldReference"@ {
                let (field, end) = field_scan(evs, pos + 1, evs[pos]);
                proof {
                    lemma_element_fold_bounds(evs, pos + 1, 1, (None, event_attribute(evs[pos], "name"@), None), field_steps());
                }
                go_to_field_scan(evs, end, (step, label, on, fields + field_display(field)))
            } else {
                go_to_field_scan(evs, pos + 1, f)
            },
            _ => go_to_field_scan(evs, pos + 1, f),
        }
    }
}

/// The parameter of a Go to Field line: the select label where select is set, then the fields.
pub open spec fn go_to_field_parameter(label: Seq<char>, on: bool, fields: Seq<char>) -> Seq<char> {
    let first = if on { label } else { Seq::empty() };
    if fields.len() > 0 {
        if first.len() > 0 { first + " ; "@ + fields } else { fields }
    } else {
        first
    }
}

/// The line of a Go to Field step: `name [ parameter ]`, or `name []` without one; no line
/// without a step name.
pub open spec fn go_to_field_outcome(evs: Seq<EventView>) -> Option<Option<Seq<char>>> {
    match go_to_field_scan(evs, 0, (Seq::empty(), Seq::empty(), false, Seq::empty())) {
        None => None,
        Some((step, label, on, fields)) => Some(if step.len() == 0 {
            None
        } else {
            let parameter = go_to_field_parameter(label, on, fields);
            if parameter.len() == 0 {
                Some(step + " []"@)
            } else {
                Some(step + " [ "@ + parameter + " ]"@)
            }
        }),
    }
}

/// The line of a Go to Field step read from its events.
pub fn go_to_field_line(events: &Vec<XmlEvent>) -> (res: Option<Option<String>>)
    ensures
        res.deep_view() == go_to_field_outcome(events.deep_view()),
{
    let ghost evs = events.deep_view();
    let mut reader = XmlReader::new(events);
    let mut step = String::new();
    let mut label = String::new();
    let mut on = false;
    let mut fields = String::new();
    loop
        invariant
            reader.events == events,
            evs == reader.evs(),
            reader.pos <= evs.len(),
            go_to_field_scan(evs, reader.pos as int, (step@, label@, on, fields@))
                == go_to_field_scan(evs, 0, (Seq::empty(), Seq::empty(), false, Seq::empty())),
        ensures
            reader.pos >= evs.len(),
        decreases evs.len() - reader.pos,
    {
        let ghost pos = reader.pos as int;
        match reader.read_event() {
            None => break,
            Some(event) => match event {
                XmlEvent::Start { name, attributes } => {
                    if str_eq(name.as_str(), "Step") {
                        match get_attribute(attributes, "name") {
                            Some(n) => {
                                step = n;
                            },
                            None => {
                                return None;
                            },
                        }
                    } else if str_eq(name.as_str(), "Boolean") {
                        if let Some(t) = get_attribute(attributes, "type") {
                            label = t;
                        }
                        match get_attribute(attributes, "value") {
                            Some(v) => {
                                if str_eq(v.as_str(), "True") {
                                    on = true;
                                } else if str_eq(v.as_str(), "False") {
                                    on = false;
                                }
                            },
                            None => {
                                return None;
                            },
                        }
                    } else if str_eq(name.as_str(), "FieldReference") {
                        proof {
                            lemma_element_fold_bounds(evs, pos + 1, 1, (None, event_attribute(evs[pos], "name"@), None), field_steps());
                        }
                        if let Ok(field) = FieldReference::from_xml(&mut reader, event) {
                            if let Some(shown) = field.display() {
                                fields.append(shown.as_str());
                            }
                        }
                    }
                },
                _ => {},
            },
        }
    }
    if step.unicode_len() == 0 {
        return Some(None);
    }
    let mut parameter = String::new();
    if on {
        parameter.append(label.as_str());
    }
    if fields.unicode_len() > 0 {
        if parameter.unicode_len() > 0 {
            parameter.append(" ; ");
        }
        parameter.append(fields.as_str());
    }
    if parameter.unicode_len() == 0 {
        Some(Some(concat(step.as_str(), " []")))
    } else {
        Some(Some(concat3(step.as_str(), " [ ", concat(parameter.as_str(), " ]").as_str())))
    }
}

/// Whether the Go to Field step `step` can be shown.
pub open spec fn go_to_field_readable(step: Seq<char>) -> bool {
    go_to_field_outcome(xml_events(step)) is Some
}

/// The line of the Go to Field step whose XML is `step`.
pub fn sanitize(step: &str) -> (res: Option<String>)
    requires
        go_to_field_readable(step@),
    ensures
        Some(res.deep_view()) == go_to_field_outcome(xml_events(step@)),
{
    let events = parse_events(step);
    match go_to_field_line(&events) {
        Some(line) => line,
        None => None,
    }
}

/// The line of the Go to Field step whose XML is `step`, as [`sanitize`] gives it; `None`
/// where it cannot be shown.
pub fn sanitize_checked(step: &str) -> (res: Option<Option<String>>)
    ensures
        res.deep_view() == go_to_field_outcome(xml_events(step@)),
{
    let events = parse_events(step);
    match go_to_field_line(&events) {
        Some(_) => Some(sanitize(step)),
        None => None,
    }
}

} // verus!
