//! The Go to Layout step: the layout and the animation.
use vstd::prelude::*;

use crate::calculations::layout_reference::{layout_ref_display, layout_ref_outcome, lemma_layout_ref_scan_bounds, LayoutReferenceContainer};
use crate::text::{concat3, str_eq};
use crate::xml::{event_attribute, first_attribute, get_attribute, parse_events, xml_events, EventView, XmlEvent, XmlReader};

verus! {

/// Reads a Go to Layout step's events from `pos` on: `<Step>` sets the step name and
/// `<Animation>` the animation, each by its `name`; a layout reference is read whole and sets
/// the layout as it shows. `None` where a name is missing or the layout cannot be read or shown.
pub open spec fn go_to_layout_scan(evs: Seq<EventView>, pos: int, step: Seq<char>, layout: Seq<char>, animation: Seq<char>) -> Option<(Seq<char>, Seq<char>, Seq<char>)>
    decreases evs.len() - pos,
{
    if pos < 0 || pos >= evs.len() {
        Some((step, layout, animation))
    } else {
        match evs[pos] {
            EventView::Start(name, attributes) => if name == "Step"@ {
                match first_attribute(attributes, "name"@) {
                    Some(n) => go_to_layout_scan(evs, pos + 1, n, layout, animation),
                    None => None,
                }
            } else if name == "LayoutReferenceContainer"@ {
                match layout_ref_outcome(evs, pos + 1, evs[pos]) {
                    None => None,
                    Some((kind, l, end)) => match layout_ref_display(kind, l) {
                        None => None,
                        Some(shown) => {
                            proof {
                                lemma_layout_ref_scan_bounds(evs, pos + 1, 1, kind, Seq::empty());
                            }
                            go_to_layout_scan(evs, end, step, shown, animation)
                        },
                    },
                }
            } else if name == "Animation"@ {
                match first_attribute(attributes, "name"@) {
                    Some(n) => go_to_layout_scan(evs, pos + 1, step, layout, n),
                    None => None,
                }
            } else {
                go_to_layout_scan(evs, pos + 1, step, layout, animation)
            },
            _ => go_to_layout_scan(evs, pos + 1, step, layout, animation),
        }
    }
}

/// The line of a Go to Layout step: `name [ layout ; Animation: animation ]`; no line without a
/// step name.
pub open spec fn go_to_layout_outcome(evs: Seq<EventView>) -> Option<Option<Seq<char>>> {
    match go_to_layout_scan(evs, 0, Seq::empty(), Seq::empty(), Seq::empty()) {
        None => None,
        Some((step, layout, animation)) => Some(if step.len() == 0 {
            None
        } else {
            Some(step + " [ "@ + layout + " ; Animation: "@ + animation + " ]"@)
        }),
    }
}

/// The line of a Go to Layout step read from its events.
pub fn go_to_layout_line(events: &Vec<XmlEvent>) -> (res: Option<Option<String>>)
    ensures
        res.deep_view() == go_to_layout_outcome(events.deep_view()),
{
    let ghost evs = events.deep_view();
    let mut reader = XmlReader::new(events);
    let mut step = String::new();
    let mut layout = String::new();
    let mut animation = String::new();
    loop
        invariant
            reader.events == events,
            evs == reader.evs(),
            reader.pos <= evs.len(),
            go_to_layout_scan(evs, reader.pos as int, step@, layout@, animation@)
                == go_to_layout_scan(evs, 0, Seq::empty(), Seq::empty(), Seq::empty()),
        ensures
            reader.pos >= evs.len(),
        decreases evs.len() - reader.pos,
    {
        let ghost pos = reader.pos as int;
        match reader.read_event() {
            None => break,
            Some(event) => match event {
                XmlEvent::Start { name, attributes } => {
                    if str_eq(name.as_str(), "Step") {
                        match get_attribute(attributes, "name") {
                            Some(n) => {
                                step = n;
                            },
                            None => {
                                return None;
                            },
                        }
                    } else if str_eq(name.as_str(), "LayoutReferenceContainer") {
                        proof {
                            if let Some(kind) = event_attribute(evs[pos], "value"@) {
                                lemma_layout_ref_scan_bounds(evs, pos + 1, 1, kind, Seq::empty());
                            }
                        }
                        match LayoutReferenceContainer::read(&mut reader, event) {
                            None => {
                                return None;
                            },
                            Some(l) => match l.display() {
                                None => {
                                    return None;
                                },
                                Some(shown) => {
                                    layout = shown;
                                },
                            },
                        }
                    } else if str_eq(name.as_str(), "Animation") {
                        match get_attribute(attributes, "name") {
                            Some(n) => {
                                animation = n;
                            },
                            None => {
                                return None;
                            },
                        }
                    }
                },
                _ => {},
            },
        }
    }
    Some(if step.unicode_len() == 0 {
        None
    } else {
        let mut out = concat3(step.as_str(), " [ ", layout.as_str());
        out.append(" ; Animation: ");
        out.append(animation.as_str());
        out.append(" ]");
        Some(out)
    })
}

/// Whether the Go to Layout step `step` can be shown.
pub open spec fn go_to_layout_readable(step: Seq<char>) -> bool {
    go_to_layout_outcome(xml_events(step)) is Some
}

/// The line of the Go to Layout step whose XML is `step`.
pub fn sanitize(step: &str) -> (res: Option<String>)
    requires
        go_to_layout_readable(step@),
    ensures
        Some(res.deep_view()) == go_to_layout_outcome(xml_events(step@)),
{
    let events = parse_events(step);
    match go_to_layout_line(&events) {
        Some(line) => line,
        None => None,
    }
}

/// The line of the Go to Layout step whose XML is `step`, as [`sanitize`] gives it; `None`
/// where it cannot be shown.
pub fn sanitize_checked(step: &str) -> (res: Option<Option<String>>)
    ensures
        res.deep_view() == go_to_layout_outcome(xml_events(step@)),
{
    let events = parse_events(step);
    match go_to_layout_line(&events) {
        Some(_) => Some(sanitize(step)),
        None => None,
    }
}

} // verus!
