//! A layout reference read for the Go to Layout step.
use vstd::prelude::*;

use crate::script_steps::parameters::calculation::{calculation_scan, calculation_steps};
use crate::script_steps::parameters::layout_reference::{label_scan, lemma_label_scan_bounds, LayoutReferenceContainer as LabelReader};
use crate::script_steps::step_scan::{raw_formula, read_formula};
use crate::text::{concat, concat3, str_eq, string_of};
use crate::xml::{event_attribute, event_get_attribute, first_attribute, get_attribute, lemma_element_fold_bounds, EventView, XmlEvent, XmlReader};

verus! {

/// A layout reference: how the layout is chosen, and which.
#[derive(Debug)]
pub struct LayoutReferenceContainer {
    pub reference_type: String,
    pub layout_reference: String,
}

/// Reads the rest of a layout reference of type `kind` from `pos` on, with `depth` elements
/// open. For type `0` nothing is read; otherwise the first `<LayoutReference>` gives the layout
/// by its `name` and ends the reading (`None` where it has no name), and a `<Label>` or a
/// calculation gives the layout by its text. The layout and the position where reading stopped.
pub open spec fn layout_ref_scan(evs: Seq<EventView>, pos: int, depth: int, kind: Seq<char>, layout: Seq<char>) -> Option<(Seq<char>, int)>
    decreases evs.len() - pos,
{
    if pos < 0 || pos >= evs.len() {
        Some((layout, pos))
    } else {
        match evs[pos] {
            EventView::Start(name, attributes) => if kind == "0"@ {
                layout_ref_scan(evs, pos + 1, depth + 1, kind, layout)
            } else if name == "LayoutReference"@ {
                match first_attribute(attributes, "name"@) {
                    Some(n) => Some((n, pos + 1)),
                    None => None,
                }
            } else if name == "Label"@ {
                let (label, end) = label_scan(evs, pos + 1, Seq::empty());
                proof {
                    lemma_label_scan_bounds(evs, pos + 1, Seq::empty());
                }
                layout_ref_scan(evs, end, depth, kind, label)
            } else if name == "Calculation"@ {
                let (calculation, end) = calculation_scan(evs, pos + 1);
                proof {
                    lemma_element_fold_bounds(evs, pos + 1, 1, (None, false), calculation_steps());
                }
                layout_ref_scan(evs, end, depth, kind, raw_formula(calculation))
            } else {
                layout_ref_scan(evs, pos + 1, depth + 1, kind, layout)
            },
            EventView::End(_) => if depth <= 1 {
                Some((layout, pos + 1))
            } else {
                layout_ref_scan(evs, pos + 1, depth - 1, kind, layout)
            },
            _ => layout_ref_scan(evs, pos + 1, depth, kind, layout),
        }
    }
}

/// A layout reference scan that succeeds ends between where it starts and the end of the list,
/// past its start where there is an event to read.
pub proof fn lemma_layout_ref_scan_bounds(evs: Seq<EventView>, pos: int, depth: int, kind: Seq<char>, layout: Seq<char>)
    requires
        0 <= pos <= evs.len(),
    ensures
        layout_ref_scan(evs, pos, depth, kind, layout) matches Some((_, end)) ==> pos <= end <= evs.len()
            && (pos < evs.len() ==> pos < end),
    decreases evs.len() - pos,
{
    if pos < evs.len() {
        match evs[pos] {
            EventView::Start(name, attributes) => if kind == "0"@ {
                lemma_layout_ref_scan_bounds(evs, pos + 1, depth + 1, kind, layout);
            } else if name == "LayoutReference"@ {
            } else if name == "Label"@ {
                let (label, end) = label_scan(evs, pos + 1, Seq::empty());
                lemma_label_scan_bounds(evs, pos + 1, Seq::empty());
                lemma_layout_ref_scan_bounds(evs, end, depth, kind, label);
            } else if name == "Calculation"@ {
                let (calculation, end) = calculation_scan(evs, pos + 1);
                lemma_element_fold_bounds(evs, pos + 1, 1, (None, false), calculation_steps());
                lemma_layout_ref_scan_bounds(evs, end, depth, kind, raw_formula(calculation));
            } else {
                lemma_layout_ref_scan_bounds(evs, pos + 1, depth + 1, kind, layout);
            },
            EventView::End(_) => if depth > 1 {
                lemma_layout_ref_scan_bounds(evs, pos + 1, depth - 1, kind, layout);
            },
            _ => lemma_layout_ref_scan_bounds(evs, pos + 1, depth, kind, layout),
        }
    }
}

/// Reading the layout reference opened by `e` whose content starts at `pos`: its type (the
/// `value` of `e`) and layout, and the position where reading stopped; `None` where `e` has no
/// `value` or a `<LayoutReference>` has no name.
pub open spec fn layout_ref_outcome(evs: Seq<EventView>, pos: int, e: EventView) -> Option<(Seq<char>, Seq<char>, int)> {
    match event_attribute(e, "value"@) {
        None => None,
        Some(kind) => match layout_ref_scan(evs, pos, 1, kind, Seq::empty()) {
            Some((layout, end)) => Some((kind, layout, end)),
            None => None,
        },
    }
}

/// How a layout reference is shown by its type: `0` as nothing, `1` the original layout,
/// `3` by name, `4` by number, `5` a named layout; other types are not shown.
pub open spec fn layout_ref_display(kind: Seq<char>, layout: Seq<char>) -> Option<Seq<char>> {
    if kind == "0"@ {
        Some(Seq::empty())
    } else if kind == "1"@ {
        Some("Layout: <"@ + layout + ">"@)
    } else if kind == "3"@ {
        Some("Layoutname: "@ + layout)
    } else if kind == "4"@ {
        Some("Layoutnr.: "@ + layout)
    } else if kind == "5"@ {
        Some("Layout: \""@ + layout + "\""@)
    } else {
        None
    }
}

impl LayoutReferenceContainer {
    /// Reads a layout reference whose start tag `e` was the last event read; `None` where it
    /// cannot be read.
    pub fn read(reader: &mut XmlReader, e: &XmlEvent) -> (res: Option<LayoutReferenceContainer>)
        ensures
            final(reader).events == old(reader).events,
            match layout_ref_outcome(old(reader).evs(), old(reader).pos as int, e@) {
                Some((kind, layout, end)) => res matches Some(item) && item.reference_type@ == kind
                    && item.layout_reference@ == layout && final(reader).pos == end,
                None => res is None,
            },
    {
        let ghost evs = reader.evs();
        let ghost start = reader.pos as int;
        let kind = match event_get_attribute(e, "value") {
            Some(v) => v,
            None => {
                return None;
            },
        };
        let skip = str_eq(kind.as_str(), "0");
        let mut depth: u128 = 1;
        let mut layout = String::new();
        loop
            invariant_except_break
                1 <= depth <= reader.pos + 1,
                layout_ref_scan(evs, reader.pos as int, depth as int, kind@, layout@) == layout_ref_scan(evs, start, 1, kind@, Seq::empty()),
            invariant
                reader.events == old(reader).events,
                evs == reader.evs(),
                start == old(reader).pos,
                skip == (kind@ == "0"@),
                event_attribute(e@, "value"@) == Some(kind@),
            ensures
                layout_ref_scan(evs, start, 1, kind@, Seq::empty()) == Some((layout@, reader.pos as int)),
            decreases evs.len() - reader.pos,
        {
            let ghost pos = reader.pos as int;
            match reader.read_event() {
                None => break,
                Some(event) => match event {
                    XmlEvent::Start { name, attributes } => {
                        if skip {
                            depth = depth + 1;
                        } else if str_eq(name.as_str(), "LayoutReference") {
                            match get_attribute(attributes, "name") {
                                Some(n) => {
                                    layout = n;
                                    break;
                                },
                                None => {
                                    return None;
                                },
                            }
                        } else if str_eq(name.as_str(), "Label") {
                            proof {
                                lemma_label_scan_bounds(evs, pos + 1, Seq::empty());
                            }
                            if let Ok(label) = LabelReader::parse_label(reader, event) {
                                layout = label;
                            }
                        } else if str_eq(name.as_str(), "Calculation") {
                            proof {
                                lemma_element_fold_bounds(evs, pos + 1, 1, (None, false), calculation_steps());
                            }
                            layout = read_formula(reader, event);
                        } else {
                            depth = depth + 1;
                        }
                    },
                    XmlEvent::End { .. } => {
                        depth = depth - 1;
                        if depth == 0 {
                            break;
                        }
                    },
                    _ => {},
                },
            }
        }
        Some(LayoutReferenceContainer { reference_type: kind, layout_reference: layout })
    }

    /// Reads a layout reference whose start tag `e` was the last event read.
    pub fn from_xml(reader: &mut XmlReader, e: &XmlEvent) -> (res: Result<LayoutReferenceContainer, String>)
        requires
            layout_ref_outcome(old(reader).evs(), old(reader).pos as int, e@) is Some,
        ensures
            final(reader).events == old(reader).events,
            layout_ref_outcome(old(reader).evs(), old(reader).pos as int, e@) matches Some((kind, layout, end))
                && res matches Ok(item) && item.reference_type@ == kind && item.layout_reference@ == layout
                && final(reader).pos == end,
    {
        match Self::read(reader, e) {
            Some(item) => Ok(item),
            None => Err(String::new()),
        }
    }

    /// The layout as it is shown for its type; `None` for other types.
    pub fn display(&self) -> (res: Option<String>)
        ensures
            res.deep_view() == layout_ref_display(self.reference_type@, self.layout_reference@),
    {
        proof {
            reveal_strlit("0");
            reveal_strlit("1");
            reveal_strlit("3");
            reveal_strlit("4");
            reveal_strlit("5");
            reveal_strlit("");
        }
        let kind = self.reference_type.as_str();
        let layout = self.layout_reference.as_str();
        if str_eq(kind, "0") {
            Some(string_of(""))
        } else if str_eq(kind, "1") {
            Some(concat3("Layout: <", layout, ">"))
        } else if str_eq(kind, "3") {
            Some(concat("Layoutname: ", layout))
        } else if str_eq(kind, "4") {
            Some(concat("Layoutnr.: ", layout))
        } else if str_eq(kind, "5") {
            Some(concat3("Layout: \"", layout, "\""))
        } else {
            None
        }
    }
}

} // verus!
