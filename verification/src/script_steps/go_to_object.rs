//! The Go to Object step: the object's name and repetition.
use vstd::prelude::*;

use crate::script_steps::parameters::calculation::calculation_display;
use crate::script_steps::step_scan::{calc_scan, raw_formula, read_calculation_display};
use crate::text::{concat, concat3, str_eq};
use crate::xml::{first_attribute, get_attribute, parse_events, xml_events, Attributes, EventView, XmlEvent, XmlReader};

verus! {

/// Step name, object name and repetition.
pub type GoToObjectFields = (Seq<char>, Seq<char>, Seq<char>);

/// `<Name>` and `<repetition>` open calculations.
pub open spec fn name_or_repetition() -> spec_fn(Seq<char>, Attributes) -> bool {
    |name: Seq<char>, a: Attributes| name == "Name"@ || name == "repetition"@
}

/// The calculation of `<Name>` sets the object name, that of `<repetition>` the repetition
/// (each empty where the formula does not show).
pub open spec fn go_to_object_calc() -> spec_fn(GoToObjectFields, Seq<char>, Attributes, Option<Seq<char>>) -> Option<GoToObjectFields> {
    |f: GoToObjectFields, name: Seq<char>, a: Attributes, calc: Option<Seq<char>>| if name == "Name"@ {
        Some((f.0, raw_formula(calculation_display(calc)), f.2))
    } else {
        Some((f.0, f.1, raw_formula(calculation_display(calc))))
    }
}

/// `<Step>` sets the step name; `None` where it has none.
pub open spec fn go_to_object_start() -> spec_fn(GoToObjectFields, Seq<char>, Attributes) -> Option<GoToObjectFields> {
    |f: GoToObjectFields, name: Seq<char>, a: Attributes| if name == "Step"@ {
        match first_attribute(a, "name"@) {
            Some(n) => Some((n, f.1, f.2)),
            None => None,
        }
    } else {
        Some(f)
    }
}

/// The line of a Go to Object step: `name [ object ; Repetition: r ]`, leaving out what is
/// empty (`name []` for both); no line without a step name.
pub open spec fn go_to_object_outcome(evs: Seq<EventView>) -> Option<Option<Seq<char>>> {
    match calc_scan(evs, 0, (Seq::empty(), Seq::empty(), Seq::empty()), name_or_repetition(), go_to_object_calc(), go_to_object_start()) {
        None => None,
        Some((step, object, repetition)) => Some(if step.len() == 0 {
            None
        } else if object.len() > 0 && repetition.len() > 0 {
            Some(step + " [ "@ + object + " ; Repetition: "@ + repetition + " ]"@)
        } else if object.len() > 0 {
            Some(step + " [ "@ + object + " ]"@)
        } else if repetition.len() > 0 {
            Some(step + " [ ; Repetition: "@ + repetition + " ]"@)
        } else {
            Some(step + " []"@)
        }),
    }
}

/// The line of a Go to Object step read from its events.
pub fn go_to_object_line(events: &Vec<XmlEvent>) -> (res: Option<Option<String>>)
    ensures
        res.deep_view() == go_to_object_outcome(events.deep_view()),
{
    let ghost evs = events.deep_view();
    let mut reader = XmlReader::new(events);
    let mut step = String::new();
    let mut object = String::new();
    let mut repetition = String::new();
    loop
        invariant
            reader.events == events,
            evs == reader.evs(),
            reader.pos <= evs.len(),
            calc_scan(evs, reader.pos as int, (step@, object@, repetition@), name_or_repetition(), go_to_object_calc(), go_to_object_start())
                == calc_scan(evs, 0, (Seq::empty(), Seq::empty(), Seq::empty()), name_or_repetition(), go_to_object_calc(), go_to_object_start()),
        ensures
            reader.pos >= evs.len(),
        decreases evs.len() - reader.pos,
    {
        match reader.read_event() {
            None => break,
            Some(event) => match event {
                XmlEvent::Start { name, attributes } => {
                    if str_eq(name.as_str(), "Name") {
                        object = match read_calculation_display(&mut reader, event) {
                            Some(c) => c,
                            None => String::new(),
                        };
                    } else if str_eq(name.as_str(), "repetition") {
                        repetition = match read_calculation_display(&mut reader, event) {
                            Some(c) => c,
                            None => String::new(),
                        };
                    } else if str_eq(name.as_str(), "Step") {
                        match get_attribute(attributes, "name") {
                            Some(n) => {
                                step = n;
                            },
                            None => {
                                return None;
                            },
                        }
                    }
                },
                _ => {},
            },
        }
    }
    Some(if step.unicode_len() == 0 {
        None
    } else if object.unicode_len() > 0 && repetition.unicode_len() > 0 {
        let mut out = concat3(step.as_str(), " [ ", object.as_str());
        out.append(" ; Repetition: ");
        out.append(repetition.as_str());
        out.append(" ]");
        Some(out)
    } else if object.unicode_len() > 0 {
        Some(concat3(step.as_str(), " [ ", concat(object.as_str(), " ]").as_str()))
    } else if repetition.unicode_len() > 0 {
        Some(concat3(step.as_str(), " [ ; Repetition: ", concat(repetition.as_str(), " ]").as_str()))
    } else {
        Some(concat(step.as_str(), " []"))
    })
}

/// Whether the Go to Object step `step` can be shown: its `<Step>` tag has a name.
pub open spec fn go_to_object_readable(step: Seq<char>) -> bool {
    go_to_object_outcome(xml_events(step)) is Some
}

/// The line of the Go to Object step whose XML is `step`.
pub fn sanitize(step: &str) -> (res: Option<String>)
    requires
        go_to_object_readable(step@),
    ensures
        Some(res.deep_view()) == go_to_object_outcome(xml_events(step@)),
{
    let events = parse_events(step);
    match go_to_object_line(&events) {
        Some(line) => line,
        None => None,
    }
}

/// The line of the Go to Object step whose XML is `step`, as [`sanitize`] gives it; `None`
/// where a `<Step>` tag has no name.
pub fn sanitize_checked(step: &str) -> (res: Option<Option<String>>)
    ensures
        res.deep_view() == go_to_object_outcome(xml_events(step@)),
{
    let events = parse_events(step);
    match go_to_object_line(&events) {
        Some(_) => Some(sanitize(step)),
        None => None,
    }
}

} // verus!
