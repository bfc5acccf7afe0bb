//! The Refresh Object step: the object's name and repetition.
use vstd::prelude::*;

use crate::script_steps::step_scan::event_fold;
use crate::text::{concat, concat3, join, join_seq, str_eq};
use crate::xml::{first_attribute, get_attribute, parse_events, xml_events, EventView, XmlEvent};

verus! {

/// Step name; whether the reader is inside the object name and inside the repetition; the
/// object name and repetition formulas read so far.
pub type RefreshFields = (Seq<char>, bool, bool, Seq<char>, Seq<char>);

/// What an event does: `<Step>` sets the step name (`None` where it has none); `<Name>` and
/// `<repetition>` enter the object name and repetition, `</Calculation>` leaves both; a CDATA
/// section inside them adds to their formulas.
pub open spec fn refresh_step(f: RefreshFields, e: EventView) -> Option<RefreshFields> {
    let (step, in_name, in_repetition, name, repetition) = f;
    match e {
        EventView::Start(tag, attributes) => if tag == "Step"@ {
            match first_attribute(attributes, "name"@) {
                Some(n) => Some((n, in_name, in_repetition, name, repetition)),
                None => None,
            }
        } else if tag == "Name"@ {
            Some((step, true, in_repetition, name, repetition))
        } else if tag == "repetition"@ {
            Some((step, in_name, true, name, repetition))
        } else {
            Some(f)
        },
        EventView::CData(content) => Some((step, in_name, in_repetition,
            if in_name { name + content } else { name },
            if in_repetition { repetition + content } else { repetition })),
        EventView::End(tag) => if tag == "Calculation"@ {
            Some((step, false, false, name, repetition))
        } else {
            Some(f)
        },
        _ => Some(f),
    }
}

/// [`refresh_step`] as a function value.
pub open spec fn refresh_steps() -> spec_fn(RefreshFields, EventView) -> Option<RefreshFields> {
    |f: RefreshFields, e: EventView| refresh_step(f, e)
}

/// The parts of a Refresh Object line: the object name and the repetition, each where it is
/// neither empty nor `1`.
pub open spec fn refresh_parts(name: Seq<char>, repetition: Seq<char>) -> Seq<Seq<char>> {
    let a = if name.len() > 0 && name != "1"@ { seq!["Name: "@ + name] } else { Seq::empty() };
    if repetition.len() > 0 && repetition != "1"@ { a.push(repetition) } else { a }
}

/// The line of a Refresh Object step: `name [ parts ]`, or `name []` without parts.
pub open spec fn refresh_outcome(evs: Seq<EventView>) -> Option<Seq<char>> {
    match event_fold(evs, 0, (Seq::empty(), false, false, Seq::empty(), Seq::empty()), refresh_steps()) {
        None => None,
        Some((step, _, _, name, repetition)) => {
            let params = join_seq(refresh_parts(name, repetition), " ; "@);
            Some(if params.len() == 0 {
                step + " []"@
            } else {
                step + " [ "@ + params + " ]"@
            })
        },
    }
}

/// The line of a Refresh Object step read from its events; `None` where a `<Step>` tag has no name.
pub fn refresh_line(events: &Vec<XmlEvent>) -> (res: Option<String>)
    ensures
        res.deep_view() == refresh_outcome(events.deep_view()),
{
    let ghost evs = events.deep_view();
    let mut i: usize = 0;
    let mut step = String::new();
    let mut in_name = false;
    let mut in_repetition = false;
    let mut name = String::new();
    let mut repetition = String::new();
    while i < events.len()
        invariant
            evs == events.deep_view(),
            i <= events.len(),
            event_fold(evs, i as int, (step@, in_name, in_repetition, name@, repetition@), refresh_steps())
                == event_fold(evs, 0, (Seq::empty(), false, false, Seq::empty(), Seq::empty()), refresh_steps()),
        decreases events.len() - i,
    {
        match &events[i] {
            XmlEvent::Start { name: tag, attributes } => {
                if str_eq(tag.as_str(), "Step") {
                    match get_attribute(attributes, "name") {
                        Some(n) => {
                            step = n;
                        },
                        None => {
                            return None;
                        },
                    }
                } else if str_eq(tag.as_str(), "Name") {
                    in_name = true;
                } else if str_eq(tag.as_str(), "repetition") {
                    in_repetition = true;
                }
            },
            XmlEvent::CData { content } => {
                if in_name {
                    name.append(content.as_str());
                }
                if in_repetition {
                    repetition.append(content.as_str());
                }
            },
            XmlEvent::End { name: tag } => {
                if str_eq(tag.as_str(), "Calculation") {
                    in_name = false;
                    in_repetition = false;
                }
            },
            _ => {},
        }
        i = i + 1;
    }
    proof {
        reveal_strlit("1");
    }
    let mut parts: Vec<String> = Vec::new();
    if name.unicode_len() > 0 && !str_eq(name.as_str(), "1") {
        parts.push(concat("Name: ", name.as_str()));
    }
    let ghost a = parts.deep_view();
    assert(a =~= (if name@.len() > 0 && name@ != "1"@ { seq!["Name: "@ + name@] } else { Seq::empty() }));
    if repetition.unicode_len() > 0 && !str_eq(repetition.as_str(), "1") {
        parts.push(repetition.clone());
        assert(parts.deep_view() =~= a.push(repetition@));
    }
    let params = join(&parts, " ; ");
    if params.unicode_len() == 0 {
        Some(concat(step.as_str(), " []"))
    } else {
        Some(concat3(step.as_str(), " [ ", concat(params.as_str(), " ]").as_str()))
    }
}

/// Whether the Refresh Object step `step` can be shown: its `<Step>` tag has a name.
pub open spec fn refresh_readable(step: Seq<char>) -> bool {
    refresh_outcome(xml_events(step)) is Some
}

/// The line of the Refresh Object step whose XML is `step`.
pub fn sanitize(step: &str) -> (res: Option<String>)
    requires
        refresh_readable(step@),
    ensures
        res.deep_view() == refresh_outcome(xml_events(step@)),
{
    let events = parse_events(step);
    refresh_line(&events)
}

/// The line of the Refresh Object step whose XML is `step`, as [`sanitize`] gives it; `None`
/// where a `<Step>` tag has no name.
pub fn sanitize_checked(step: &str) -> (res: Option<String>)
    ensures
        res.deep_view() == refresh_outcome(xml_events(step@)),
{
    let events = parse_events(step);
    match refresh_line(&events) {
        Some(_) => sanitize(step),
        None => None,
    }
}

} // verus!
