//! The formula text of a custom function.
use vstd::prelude::*;

use crate::text::str_eq;
use crate::xml::{first_attribute, get_attribute, parse_events, xml_events, EventView, XmlEvent};

verus! {

/// A custom function's id and formula.
#[derive(Debug)]
pub struct CfInfo {
    pub id: String,
    pub text: String,
}

/// The id and formula read so far, whether a `<CustomFunction>` tag was seen, and whether the
/// reader is inside a calculation and inside a text.
pub type CfFields = (Seq<char>, Seq<char>, bool, bool, bool);

/// Reads a custom function's events from `pos` on, up to the first malformed piece:
/// `<CustomFunction>` sets the id (where it has one), as does a `<CustomFunctionReference>`
/// before any `<CustomFunction>`; `<Calculation>` and `<Text>` are entered and left; the first
/// CDATA section inside both is the formula and ends the reading.
pub open spec fn cf_scan(evs: Seq<EventView>, pos: int, f: CfFields) -> CfFields
    decreases evs.len() - pos,
{
    if pos < 0 || pos >= evs.len() {
        f
    } else {
        let (id, text, saw, in_calc, in_text) = f;
        match evs[pos] {
            EventView::Malformed => f,
            EventView::Start(name, attributes) => if name == "CustomFunction"@ {
                cf_scan(evs, pos + 1, (match first_attribute(attributes, "id"@) {
                    Some(i) => i,
                    None => id,
                }, text, true, in_calc, in_text))
            } else if name == "CustomFunctionReference"@ && !saw {
                cf_scan(evs, pos + 1, (match first_attribute(attributes, "id"@) {
                    Some(i) => i,
                    None => id,
                }, text, saw, in_calc, in_text))
            } else if name == "Calculation"@ {
                cf_scan(evs, pos + 1, (id, text, saw, true, in_text))
            } else if name == "Text"@ {
                cf_scan(evs, pos + 1, (id, text, saw, in_calc, true))
            } else {
                cf_scan(evs, pos + 1, f)
            },
            EventView::CData(content) => if in_text && in_calc {
                (id, content, saw, in_calc, in_text)
            } else {
                cf_scan(evs, pos + 1, f)
            },
            EventView::End(name) => if name == "Calculation"@ {
                cf_scan(evs, pos + 1, (id, text, saw, false, in_text))
            } else if name == "Text"@ {
                cf_scan(evs, pos + 1, (id, text, saw, in_calc, false))
            } else {
                cf_scan(evs, pos + 1, f)
            },
            _ => cf_scan(evs, pos + 1, f),
        }
    }
}

/// The id and formula of the custom function whose events are `evs`; `None` without an id.
pub open spec fn cf_outcome(evs: Seq<EventView>) -> Option<(Seq<char>, Seq<char>)> {
    let (id, text, _, _, _) = cf_scan(evs, 0, (Seq::empty(), Seq::empty(), false, false, false));
    if id.len() == 0 {
        None
    } else {
        Some((id, text))
    }
}

/// The id and formula of a custom function read from its events.
pub fn cf_from_events(events: &Vec<XmlEvent>) -> (res: Option<CfInfo>)
    ensures
        match cf_outcome(events.deep_view()) {
            Some((id, text)) => res matches Some(info) && info.id@ == id && info.text@ == text,
            None => res is None,
        },
{
    let ghost evs = events.deep_view();
    let mut id = String::new();
    let mut text = String::new();
    let mut saw = false;
    let mut in_calc = false;
    let mut in_text = false;
    let mut i: usize = 0;
    while i < events.len()
        invariant_except_break
            cf_scan(evs, i as int, (id@, text@, saw, in_calc, in_text))
                == cf_scan(evs, 0, (Seq::empty(), Seq::empty(), false, false, false)),
        invariant
            evs == events.deep_view(),
            i <= events.len(),
        ensures
            cf_scan(evs, 0, (Seq::empty(), Seq::empty(), false, false, false)).0 == id@,
            cf_scan(evs, 0, (Seq::empty(), Seq::empty(), false, false, false)).1 == text@,
        decreases events.len() - i,
    {
        match &events[i] {
            XmlEvent::Malformed => break,
            XmlEvent::Start { name, attributes } => {
                if str_eq(name.as_str(), "CustomFunction") {
                    saw = true;
                    if let Some(found) = get_attribute(attributes, "id") {
                        id = found;
                    }
                } else if str_eq(name.as_str(), "CustomFunctionReference") && !saw {
                    if let Some(found) = get_attribute(attributes, "id") {
                        id = found;
                    }
                } else if str_eq(name.as_str(), "Calculation") {
                    in_calc = true;
                } else if str_eq(name.as_str(), "Text") {
                    in_text = true;
                }
            },
            XmlEvent::CData { content } => {
                if in_text && in_calc {
                    text = content.clone();
                    break;
                }
            },
            XmlEvent::End { name } => {
                if str_eq(name.as_str(), "Calculation") {
                    in_calc = false;
                } else if str_eq(name.as_str(), "Text") {
                    in_text = false;
                }
            },
            _ => {},
        }
        i = i + 1;
    }
    if id.unicode_len() == 0 {
        None
    } else {
        Some(CfInfo { id, text })
    }
}

/// The id and formula of the custom function whose XML is `xml_content`; `None` without an id.
pub fn parse_cf_xml(xml_content: &str) -> (res: Option<CfInfo>)
    ensures
        match cf_outcome(xml_events(xml_content@)) {
            Some((id, text)) => res matches Some(info) && info.id@ == id && info.text@ == text,
            None => res is None,
        },
{
    let events = parse_events(xml_content);
    cf_from_events(&events)
}

} // verus!
