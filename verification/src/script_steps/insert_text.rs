//! The Insert Text step: select, target and the text.
use vstd::prelude::*;

use crate::script_steps::parameters::target::{lemma_target_scan_bounds, target_scan, Target};
use crate::script_steps::parameters::text::{text_value, text_value_unescapes, Text};
use crate::text::{concat, concat3, join, join_seq, str_eq, string_of};
use crate::xml::{attribute_is, element_end, first_attribute, get_attribute, lemma_element_fold_bounds, no_steps, parse_events, xml_events, EventView, XmlEvent, XmlReader};

verus! {

/// Step name, text, target, and whether select is set.
pub type InsertTextFields = (Seq<char>, Option<Seq<char>>, Option<Seq<char>>, bool);

/// Reads an Insert Text step's events from `pos` on: `<Step>` sets the step name (empty without
/// one); a `<Boolean>` with id `4096` and value `True` sets select; a `<Text>` element gives the
/// text (its unescaped `value`; `None` where that does not unescape); a target parameter gives
/// the target; a `<Parameter>` without a `type` gives `None`.
pub open spec fn insert_text_scan(evs: Seq<EventView>, pos: int, f: InsertTextFields) -> Option<InsertTextFields>
    decreases evs.len() - pos,
{
    if pos < 0 || pos >= evs.len() {
        Some(f)
    } else {
        let (step, text, target, select) = f;
        match evs[pos] {
            EventView::Start(name, attributes) => if name == "Step"@ {
                insert_text_scan(evs, pos + 1, (match first_attribute(attributes, "name"@) {
                    Some(n) => n,
                    None => Seq::empty(),
                }, text, target, select))
            } else if name == "Boolean"@ {
                insert_text_scan(evs, pos + 1, (step, text, target,
                    if first_attribute(attributes, "id"@) == Some("4096"@) && first_attribute(attributes, "value"@) == Some("True"@) {
                        true
                    } else {
                        select
                    }))
            } else if name == "Text"@ {
                if text_value_unescapes(evs[pos]) {
                    proof {
                        lemma_element_fold_bounds(evs, pos + 1, 1, (), no_steps());
                    }
                    insert_text_scan(evs, element_end(evs, pos + 1, 1), (step, text_value(evs[pos]), target, select))
                } else {
                    None
                }
            } else if name == "Parameter"@ {
                match first_attribute(attributes, "type"@) {
                    None => None,
                    Some(kind) => if kind == "Target"@ {
                        let (t, end) = target_scan(evs, pos + 1, 1, None);
                        proof {
                            lemma_target_scan_bounds(evs, pos + 1, 1, None);
                        }
                        insert_text_scan(evs, end, (step, text, t, select))
                    } else {
                        insert_text_scan(evs, pos + 1, f)
                    },
                }
            } else {
                insert_text_scan(evs, pos + 1, f)
            },
            _ => insert_text_scan(evs, pos + 1, f),
        }
    }
}

/// The parts of an Insert Text line: `Select`, the target and the quoted text, where there are.
pub open spec fn insert_text_parts(text: Option<Seq<char>>, target: Option<Seq<char>>, select: bool) -> Seq<Seq<char>> {
    let a = if select { seq!["Select"@] } else { Seq::empty() };
    let b = match target {
        Some(t) => a.push("Target: "@ + t),
        None => a,
    };
    match text {
        Some(t) => b.push("\""@ + t + "\""@),
        None => b,
    }
}

/// The line of an Insert Text step: `name [ parts ]`, or `name []` without parts; no line
/// without a step name.
pub open spec fn insert_text_outcome(evs: Seq<EventView>) -> Option<Option<Seq<char>>> {
    match insert_text_scan(evs, 0, (Seq::empty(), None, None, false)) {
        None => None,
        Some((step, text, target, select)) => Some(if step.len() == 0 {
            None
        } else {
            let params = join_seq(insert_text_parts(text, target, select), " ; "@);
            if params.len() == 0 {
                Some(step + " []"@)
            } else {
                Some(step + " [ "@ + params + " ]"@)
            }
        }),
    }
}

/// The line of an Insert Text step read from its events.
pub fn insert_text_line(events: &Vec<XmlEvent>) -> (res: Option<Option<String>>)
    ensures
        res.deep_view() == insert_text_outcome(events.deep_view()),
{
    let ghost evs = events.deep_view();
    let mut reader = XmlReader::new(events);
    let mut step = String::new();
    let mut text: Option<String> = None;
    let mut target: Option<String> = None;
    let mut select = false;
    loop
        invariant
            reader.events == events,
            evs == reader.evs(),
            reader.pos <= evs.len(),
            insert_text_scan(evs, reader.pos as int, (step@, text.deep_view(), target.deep_view(), select))
                == insert_text_scan(evs, 0, (Seq::empty(), None, None, false)),
        ensures
            reader.pos >= evs.len(),
        decreases evs.len() - reader.pos,
    {
        let ghost pos = reader.pos as int;
        match reader.read_event() {
            None => break,
            Some(event) => match event {
                XmlEvent::Start { name, attributes } => {
                    if str_eq(name.as_str(), "Step") {
                        step = match get_attribute(attributes, "name") {
                            Some(n) => n,
                            None => String::new(),
                        };
                    } else if str_eq(name.as_str(), "Boolean") {
                        if attribute_is(attributes, "id", "4096") && attribute_is(attributes, "value", "True") {
                            select = true;
                        }
                    } else if str_eq(name.as_str(), "Text") {
                        proof {
                            lemma_element_fold_bounds(evs, pos + 1, 1, (), no_steps());
                        }
                        match Text::from_xml_checked(&mut reader, event) {
                            Some(t) => {
                                text = t.display();
                            },
                            None => {
                                return None;
                            },
                        }
                    } else if str_eq(name.as_str(), "Parameter") {
                        match get_attribute(attributes, "type") {
                            None => {
                                return None;
                            },
                            Some(kind) => {
                                if str_eq(kind.as_str(), "Target") {
                                    proof {
                                        lemma_target_scan_bounds(evs, pos + 1, 1, None);
                                    }
                                    target = Target::from_xml(&mut reader, event).display();
                                }
                            },
                        }
                    }
                },
                _ => {},
            },
        }
    }
    if step.unicode_len() == 0 {
        return Some(None);
    }
    let mut parts: Vec<String> = Vec::new();
    if select {
        parts.push(string_of("Select"));
    }
    let ghost a = parts.deep_view();
    assert(a =~= (if select { seq!["Select"@] } else { Seq::<Seq<char>>::empty() }));
    if let Some(t) = target {
        parts.push(concat("Target: ", t.as_str()));
        assert(parts.deep_view() =~= a.push("Target: "@ + t@));
    }
    let ghost b = parts.deep_view();
    if let Some(t) = text {
        parts.push(concat3("\"", t.as_str(), "\""));
        assert(parts.deep_view() =~= b.push("\""@ + t@ + "\""@));
    }
    let params = join(&parts, " ; ");
    if params.unicode_len() == 0 {
        Some(Some(concat(step.as_str(), " []")))
    } else {
        Some(Some(concat3(step.as_str(), " [ ", concat(params.as_str(), " ]").as_str())))
    }
}

/// Whether the Insert Text step `step` can be shown.
pub open spec fn insert_text_readable(step: Seq<char>) -> bool {
    insert_text_outcome(xml_events(step)) is Some
}

/// The line of the Insert Text step whose XML is `step`.
pub fn sanitize(step: &str) -> (res: Option<String>)
    requires
        insert_text_readable(step@),
    ensures
        Some(res.deep_view()) == insert_text_outcome(xml_events(step@)),
{
    let events = parse_events(step);
    match insert_text_line(&events) {
        Some(line) => line,
        None => None,
    }
}

/// The line of the Insert Text step whose XML is `step`, as [`sanitize`] gives it; `None` where
/// it cannot be shown.
pub fn sanitize_checked(step: &str) -> (res: Option<Option<String>>)
    ensures
        res.deep_view() == insert_text_outcome(xml_events(step@)),
{
    let events = parse_events(step);
    match insert_text_line(&events) {
        Some(_) => Some(sanitize(step)),
        None => None,
    }
}

} // verus!
