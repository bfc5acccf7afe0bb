//! The Perform Find step: whether it restores a stored find.
use vstd::prelude::*;

use crate::text::{concat, str_eq};
use crate::xml::{first_attribute, get_attribute, parse_events, xml_events, EventView, XmlEvent};

verus! {

/// Reads a Perform Find step's events from `pos` on: `<Step>` sets the step name (`None` where
/// it has none); the first parameter list ends the reading with a stored find.
pub open spec fn find_scan(evs: Seq<EventView>, pos: int, step: Seq<char>) -> Option<(Seq<char>, bool)>
    decreases evs.len() - pos,
{
    if pos < 0 || pos >= evs.len() {
        Some((step, false))
    } else {
        match evs[pos] {
            EventView::Start(name, attributes) => if name == "Step"@ {
                match first_attribute(attributes, "name"@) {
                    Some(n) => find_scan(evs, pos + 1, n),
                    None => None,
                }
            } else if name == "ParameterValues"@ {
                Some((step, true))
            } else {
                find_scan(evs, pos + 1, step)
            },
            _ => find_scan(evs, pos + 1, step),
        }
    }
}

/// The line of a Perform Find step: its name, with a restore note where it restores a stored
/// find; no line without a name.
pub open spec fn perform_find_outcome(evs: Seq<EventView>) -> Option<Option<Seq<char>>> {
    match find_scan(evs, 0, Seq::empty()) {
        None => None,
        Some((step, restore)) => Some(if step.len() == 0 {
            None
        } else if restore {
            Some(step + " [ ⚠️ RESTORE ⚠️ ]"@)
        } else {
            Some(step)
        }),
    }
}

/// The line of a Perform Find step read from its events.
pub fn perform_find_line(events: &Vec<XmlEvent>) -> (res: Option<Option<String>>)
    ensures
        res.deep_view() == perform_find_outcome(events.deep_view()),
{
    let ghost evs = events.deep_view();
    let mut i: usize = 0;
    let mut step = String::new();
    let mut restore = false;
    while i < events.len()
        invariant_except_break
            find_scan(evs, i as int, step@) == find_scan(evs, 0, Seq::empty()),
            !restore,
        invariant
            evs == events.deep_view(),
            i <= events.len(),
        ensures
            find_scan(evs, 0, Seq::empty()) == Some((step@, restore)),
        decreases events.len() - i,
    {
        if let XmlEvent::Start { name, attributes } = &events[i] {
            if str_eq(name.as_str(), "Step") {
                match get_attribute(attributes, "name") {
                    Some(n) => {
                        step = n;
                    },
                    None => {
                        return None;
                    },
                }
            } else if str_eq(name.as_str(), "ParameterValues") {
                restore = true;
                break;
            }
        }
        i = i + 1;
    }
    Some(if step.unicode_len() == 0 {
        None
    } else if restore {
        Some(concat(step.as_str(), " [ ⚠️ RESTORE ⚠️ ]"))
    } else {
        Some(step)
    })
}

/// Whether the Perform Find step `step` can be shown: its `<Step>` tag has a name.
pub open spec fn perform_find_readable(step: Seq<char>) -> bool {
    perform_find_outcome(xml_events(step)) is Some
}

/// The line of the Perform Find step whose XML is `step`.
pub fn sanitize(step: &str) -> (res: Option<String>)
    requires
        perform_find_readable(step@),
    ensures
        Some(res.deep_view()) == perform_find_outcome(xml_events(step@)),
{
    let events = parse_events(step);
    match perform_find_line(&events) {
        Some(line) => line,
        None => None,
    }
}

/// The line of the Perform Find step whose XML is `step`, as [`sanitize`] gives it; `None` where
/// a `<Step>` tag has no name.
pub fn sanitize_checked(step: &str) -> (res: Option<Option<String>>)
    ensures
        res.deep_view() == perform_find_outcome(xml_events(step@)),
{
    let events = parse_events(step);
    match perform_find_line(&events) {
        Some(_) => Some(sanitize(step)),
        None => None,
    }
}

} // verus!
