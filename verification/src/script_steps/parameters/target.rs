use vstd::prelude::*;

use crate::script_steps::parameters::field_reference::{field_display, field_scan, field_steps, FieldReference};
use crate::script_steps::parameters::variable_reference::{repetition_steps, variable_scan, with_repetition, VariableReference};
use crate::text::str_eq;
use crate::xml::{event_attribute, lemma_element_fold_bounds, EventView, XmlEvent, XmlReader};

verus! {

/// The target of a step: a variable or a field.
#[derive(Debug)]
pub struct Target {
    pub target: Option<String>,
}

/// How the variable element opened by `e` with the given repetition is shown.
pub open spec fn variable_display(e: EventView, repetition: Option<i32>) -> Option<Seq<char>> {
    match event_attribute(e, "value"@) {
        Some(name) => Some(with_repetition(name, repetition)),
        None => None,
    }
}

/// Reads the rest of a target from `pos` on, with `depth` elements open: each `<Variable>` or
/// `<FieldReference>` inside is read whole and becomes the target.
pub open spec fn target_scan(evs: Seq<EventView>, pos: int, depth: int, target: Option<Seq<char>>) -> (Option<Seq<char>>, int)
    decreases evs.len() - pos,
{
    if pos < 0 || pos >= evs.len() {
        (target, pos)
    } else {
        match evs[pos] {
            EventView::Start(name, _) => if name == "Variable"@ {
                let (repetition, end) = variable_scan(evs, pos + 1);
                proof {
                    lemma_element_fold_bounds(evs, pos + 1, 1, None, repetition_steps());
                }
                target_scan(evs, end, depth, variable_display(evs[pos], repetition))
            } else if name == "FieldReference"@ {
                let (field, end) = field_scan(evs, pos + 1, evs[pos]);
                proof {
                    lemma_element_fold_bounds(evs, pos + 1, 1, (None, event_attribute(evs[pos], "name"@), None), field_steps());
                }
                target_scan(evs, end, depth, Some(field_display(field)))
            } else {
                target_scan(evs, pos + 1, depth + 1, target)
            },
            EventView::End(_) => if depth <= 1 {
                (target, pos + 1)
            } else {
                target_scan(evs, pos + 1, depth - 1, target)
            },
            _ => target_scan(evs, pos + 1, depth, target),
        }
    }
}

/// A target scan ends between where it starts and the end of the list, past its start where
/// there is an event to read.
pub proof fn lemma_target_scan_bounds(evs: Seq<EventView>, pos: int, depth: int, target: Option<Seq<char>>)
    requires
        0 <= pos <= evs.len(),
    ensures
        pos <= target_scan(evs, pos, depth, target).1 <= evs.len(),
        pos < evs.len() ==> pos < target_scan(evs, pos, depth, target).1,
    decreases evs.len() - pos,
{
    if pos < evs.len() {
        match evs[pos] {
            EventView::Start(name, _) => if name == "Variable"@ {
                let (repetition, end) = variable_scan(evs, pos + 1);
                lemma_element_fold_bounds(evs, pos + 1, 1, None, repetition_steps());
                lemma_target_scan_bounds(evs, end, depth, variable_display(evs[pos], repetition));
            } else if name == "FieldReference"@ {
                let (field, end) = field_scan(evs, pos + 1, evs[pos]);
                lemma_element_fold_bounds(evs, pos + 1, 1, (None, event_attribute(evs[pos], "name"@), None), field_steps());
                lemma_target_scan_bounds(evs, end, depth, Some(field_display(field)));
            } else {
                lemma_target_scan_bounds(evs, pos + 1, depth + 1, target);
            },
            EventView::End(_) => if depth > 1 {
                lemma_target_scan_bounds(evs, pos + 1, depth - 1, target);
            },
            _ => lemma_target_scan_bounds(evs, pos + 1, depth, target),
        }
    }
}

impl Target {
    /// Reads a target parameter whose start tag was the last event read.
    pub fn from_xml(reader: &mut XmlReader, _e: &XmlEvent) -> (item: Target)
        ensures
            final(reader).events == old(reader).events,
            (item.target.deep_view(), final(reader).pos as int) == target_scan(old(reader).evs(), old(reader).pos as int, 1, None),
    {
        let ghost evs = reader.evs();
        let ghost start = reader.pos as int;
        let mut depth: u128 = 1;
        let mut item = Target { target: None };
        loop
            invariant_except_break
                1 <= depth <= reader.pos + 1,
                target_scan(evs, reader.pos as int, depth as int, item.target.deep_view()) == target_scan(evs, start, 1, None),
            invariant
                reader.events == old(reader).events,
                evs == reader.evs(),
            ensures
                (item.target.deep_view(), reader.pos as int) == target_scan(evs, start, 1, None),
            decreases evs.len() - reader.pos,
        {
            let ghost pos = reader.pos as int;
            match reader.read_event() {
                None => break,
                Some(event) => match event {
                    XmlEvent::Start { name, .. } => {
                        if str_eq(name.as_str(), "Variable") {
                            proof {
                                lemma_element_fold_bounds(evs, pos + 1, 1, None, repetition_steps());
                            }
                            item.target = VariableReference::from_xml(reader, event).display();
                        } else if str_eq(name.as_str(), "FieldReference") {
                            proof {
                                lemma_element_fold_bounds(evs, pos + 1, 1, (None, event_attribute(evs[pos], "name"@), None), field_steps());
                            }
                            if let Ok(field) = FieldReference::from_xml(reader, event) {
                                item.target = field.display();
                            }
                        } else {
                            depth = depth + 1;
                        }
                    },
                    XmlEvent::End { .. } => {
                        depth = depth - 1;
                        if depth == 0 {
                            break;
                        }
                    },
                    _ => {},
                },
            }
        }
        item
    }

    /// The variable or field.
    pub fn display(self) -> (res: Option<String>)
        ensures
            res == self.target,
    {
        self.target
    }
}

} // verus!
