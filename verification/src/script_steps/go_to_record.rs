//! The Go to Record/Request/Page step: which record, and the dialog or exit option.
use vstd::prelude::*;

use crate::script_steps::parameters::boolean::{on_off_text, Boolean};
use crate::script_steps::step_scan::{at_calculation, calc_scan, raw_formula, read_formula};
use crate::text::{concat, str_eq};
use crate::xml::{first_attribute, get_attribute, parse_events, xml_events, Attributes, EventView, XmlEvent, XmlReader};

verus! {

/// Step name; the option's name and type; the Boolean option's name and value; the formula.
pub type GoToRecordFields = (Seq<char>, Seq<char>, Seq<char>, Seq<char>, bool, Seq<char>);

/// A calculation sets the formula.
pub open spec fn go_to_record_calc() -> spec_fn(GoToRecordFields, Seq<char>, Attributes, Option<Seq<char>>) -> Option<GoToRecordFields> {
    |f: GoToRecordFields, name: Seq<char>, a: Attributes, calc: Option<Seq<char>>| Some((f.0, f.1, f.2, f.3, f.4, raw_formula(calc)))
}

/// `<Step>` sets the step name, `<List>` the option's name and type (its `value`), `<Boolean>`
/// the Boolean option's name and whether it is `True`; `None` where one lacks an attribute it reads.
pub open spec fn go_to_record_start() -> spec_fn(GoToRecordFields, Seq<char>, Attributes) -> Option<GoToRecordFields> {
    |f: GoToRecordFields, name: Seq<char>, a: Attributes| if name == "Step"@ {
        match first_attribute(a, "name"@) {
            Some(n) => Some((n, f.1, f.2, f.3, f.4, f.5)),
            None => None,
        }
    } else if name == "List"@ {
        match (first_attribute(a, "name"@), first_attribute(a, "value"@)) {
            (Some(option), Some(kind)) => Some((f.0, option, kind, f.3, f.4, f.5)),
            _ => None,
        }
    } else if name == "Boolean"@ {
        match (first_attribute(a, "type"@), first_attribute(a, "value"@)) {
            (Some(t), Some(v)) => Some((f.0, f.1, f.2, t, v == "True"@, f.5)),
            _ => None,
        }
    } else {
        Some(f)
    }
}

/// The line of a Go to Record step: a calculated record (type `5`) by its formula, others by
/// the option's name; each with the Boolean option as `name: ON|OFF` where there is one.
pub open spec fn go_to_record_outcome(evs: Seq<EventView>) -> Option<Option<Seq<char>>> {
    match calc_scan(evs, 0, (Seq::empty(), Seq::empty(), Seq::empty(), Seq::empty(), false, Seq::empty()),
        at_calculation(), go_to_record_calc(), go_to_record_start()) {
        None => None,
        Some((step, option, kind, flag, on, formula)) => Some(if step.len() == 0 {
            None
        } else if kind == "5"@ {
            if flag.len() == 0 {
                Some(step + " [ "@ + formula + " ]"@)
            } else {
                Some(step + " [ "@ + flag + ": "@ + on_off_text(on) + " ; "@ + formula + " ]"@)
            }
        } else if flag.len() == 0 {
            Some(step + " [ "@ + option + " ]"@)
        } else {
            Some(step + " [ "@ + option + " ; "@ + flag + ": "@ + on_off_text(on) + " ]"@)
        }),
    }
}

/// The line of a Go to Record step read from its events.
pub fn go_to_record_line(events: &Vec<XmlEvent>) -> (res: Option<Option<String>>)
    ensures
        res.deep_view() == go_to_record_outcome(events.deep_view()),
{
    let ghost evs = events.deep_view();
    let mut reader = XmlReader::new(events);
    let mut step = String::new();
    let mut option = String::new();
    let mut kind = String::new();
    let mut flag = String::new();
    let mut on = false;
    let mut formula = String::new();
    loop
        invariant
            reader.events == events,
            evs == reader.evs(),
            reader.pos <= evs.len(),
            calc_scan(evs, reader.pos as int, (step@, option@, kind@, flag@, on, formula@), at_calculation(), go_to_record_calc(), go_to_record_start())
                == calc_scan(evs, 0, (Seq::empty(), Seq::empty(), Seq::empty(), Seq::empty(), false, Seq::empty()),
                    at_calculation(), go_to_record_calc(), go_to_record_start()),
        ensures
            reader.pos >= evs.len(),
        decreases evs.len() - reader.pos,
    {
        match reader.read_event() {
            None => break,
            Some(event) => match event {
                XmlEvent::Start { name, attributes } => {
                    if str_eq(name.as_str(), "Calculation") {
                        formula = read_formula(&mut reader, event);
                    } else if str_eq(name.as_str(), "Step") {
                        match get_attribute(attributes, "name") {
                            Some(n) => {
                                step = n;
                            },
                            None => {
                                return None;
                            },
                        }
                    } else if str_eq(name.as_str(), "List") {
                        match (get_attribute(attributes, "name"), get_attribute(attributes, "value")) {
                            (Some(o), Some(k)) => {
                                option = o;
                                kind = k;
                            },
                            _ => {
                                return None;
                            },
                        }
                    } else if str_eq(name.as_str(), "Boolean") {
                        match (get_attribute(attributes, "type"), get_attribute(attributes, "value")) {
                            (Some(t), Some(v)) => {
                                flag = t;
                                on = str_eq(v.as_str(), "True");
                            },
                            _ => {
                                return None;
                            },
                        }
                    }
                },
                _ => {},
            },
        }
    }
    proof {
        reveal_strlit("5");
    }
    if step.unicode_len() == 0 {
        return Some(None);
    }
    let mut out = concat(step.as_str(), " [ ");
    if str_eq(kind.as_str(), "5") {
        if flag.unicode_len() > 0 {
            out.append(flag.as_str());
            out.append(": ");
            out.append(Boolean::on_off(on));
            out.append(" ; ");
        }
        out.append(formula.as_str());
    } else {
        out.append(option.as_str());
        if flag.unicode_len() > 0 {
            out.append(" ; ");
            out.append(flag.as_str());
            out.append(": ");
            out.append(Boolean::on_off(on));
        }
    }
    out.append(" ]");
    Some(Some(out))
}

/// Whether the Go to Record step `step` can be shown: its tags have the attributes it reads.
pub open spec fn go_to_record_readable(step: Seq<char>) -> bool {
    go_to_record_outcome(xml_events(step)) is Some
}

/// The line of the Go to Record step whose XML is `step`.
pub fn sanitize(step: &str) -> (res: Option<String>)
    requires
        go_to_record_readable(step@),
    ensures
        Some(res.deep_view()) == go_to_record_outcome(xml_events(step@)),
{
    let events = parse_events(step);
    match go_to_record_line(&events) {
        Some(line) => line,
        None => None,
    }
}

/// The line of the Go to Record step whose XML is `step`, as [`sanitize`] gives it; `None`
/// where a tag lacks an attribute it reads.
pub fn sanitize_checked(step: &str) -> (res: Option<Option<String>>)
    ensures
        res.deep_view() == go_to_record_outcome(xml_events(step@)),
{
    let events = parse_events(step);
    match go_to_record_line(&events) {
        Some(_) => Some(sanitize(step)),
        None => None,
    }
}

} // verus!
