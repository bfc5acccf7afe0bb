use vstd::prelude::*;

use crate::script_steps::parameters::boolean_container::{container_display, container_scan, container_steps, BooleanContainer};
use crate::script_steps::parameters::calculation::{calculation_display, calculation_scan, calculation_steps, Calculation};
use crate::script_steps::parameters::layout_reference::{lemma_layout_scan_bounds, layout_display, layout_parameter_scan, LayoutReferenceContainer};
use crate::script_steps::parameters::select::{lemma_select_scan_bounds, select_scan, Select};
use crate::script_steps::parameters::style::Style;
use crate::text::{capitalize, capitalized, concat3, join, join_seq, str_eq};
use crate::xml::{local_name, local_part, element_end, event_attribute, lemma_element_fold_bounds, no_steps, EventView, XmlEvent, XmlReader};

verus! {

/// A window parameter: the parts of its description, in order.
#[derive(Debug)]
pub struct WindowReference {
    pub parameters: Vec<String>,
}

/// Whether `name` is an element that holds a calculation of the window.
pub open spec fn is_window_calculation(name: Seq<char>) -> bool {
    name == "Name"@ || name == "height"@ || name == "width"@ || name == "top"@ || name == "left"@ || name == "Text"@
}

/// Whether `name` is an element that holds a window option.
pub open spec fn is_window_option(name: Seq<char>) -> bool {
    name == "Close"@ || name == "Minimize"@ || name == "Maximize"@ || name == "Resize"@ || name == "MenuBar"@
        || name == "Toolbar"@ || name == "DimParentWindow"@
}

/// `parts` with `part` added, where there is one.
pub open spec fn push_some(parts: Seq<Seq<char>>, part: Option<Seq<char>>) -> Seq<Seq<char>> {
    match part {
        Some(p) => parts.push(p),
        None => parts,
    }
}

/// The part that a window style element adds.
pub open spec fn style_part(e: EventView) -> Option<Seq<char>> {
    match event_attribute(e, "name"@) {
        Some(s) => Some("Style: "@ + s),
        None => None,
    }
}

/// Reads the rest of a window parameter from `pos` on, with `depth` elements open, collecting
/// its parts: the style, the layout, the selection, the calculations (as `Name: formula` with
/// the element's name capitalized) and the options, each element read whole.
pub open spec fn window_scan(evs: Seq<EventView>, pos: int, depth: int, parts: Seq<Seq<char>>) -> (Seq<Seq<char>>, int)
    decreases evs.len() - pos,
{
    if pos < 0 || pos >= evs.len() {
        (parts, pos)
    } else {
        match evs[pos] {
            EventView::Start(name, _) => if name == "Style"@ {
                let end = element_end(evs, pos + 1, 1);
                proof {
                    lemma_element_fold_bounds(evs, pos + 1, 1, (), no_steps());
                }
                window_scan(evs, end, depth, push_some(parts, style_part(evs[pos])))
            } else if name == "LayoutReferenceContainer"@ {
                let (fields, end) = layout_parameter_scan(evs, pos + 1, evs[pos]);
                proof {
                    lemma_layout_scan_bounds(evs, pos + 1, 1, (match event_attribute(evs[pos], "value"@) {
                        Some(v) => v,
                        None => Seq::empty(),
                    }, None));
                }
                let shown = match layout_display(fields) {
                    Some(d) => d,
                    None => Seq::empty(),
                };
                window_scan(evs, end, depth, parts.push(shown))
            } else if name == "Select"@ {
                let (text, end) = select_scan(evs, pos + 1, 1, None);
                proof {
                    lemma_select_scan_bounds(evs, pos + 1, 1, None);
                }
                window_scan(evs, end, depth, push_some(parts, text))
            } else if is_window_calculation(name) {
                let (calculation, end) = calculation_scan(evs, pos + 1);
                proof {
                    lemma_element_fold_bounds(evs, pos + 1, 1, (None, false), calculation_steps());
                }
                let part = match calculation_display(calculation) {
                    Some(d) => Some(capitalized(local_part(name)) + ": "@ + d),
                    None => None,
                };
                window_scan(evs, end, depth, push_some(parts, part))
            } else if is_window_option(name) {
                let (value, end) = container_scan(evs, pos + 1);
                proof {
                    lemma_element_fold_bounds(evs, pos + 1, 1, None, container_steps());
                }
                window_scan(evs, end, depth, push_some(parts, container_display(local_part(name), value)))
            } else {
                window_scan(evs, pos + 1, depth + 1, parts)
            },
            EventView::End(_) => if depth <= 1 {
                (parts, pos + 1)
            } else {
                window_scan(evs, pos + 1, depth - 1, parts)
            },
            _ => window_scan(evs, pos + 1, depth, parts),
        }
    }
}

/// A window scan ends between where it starts and the end of the list, past its start where
/// there is an event to read.
pub proof fn lemma_window_scan_bounds(evs: Seq<EventView>, pos: int, depth: int, parts: Seq<Seq<char>>)
    requires
        0 <= pos <= evs.len(),
    ensures
        pos <= window_scan(evs, pos, depth, parts).1 <= evs.len(),
        pos < evs.len() ==> pos < window_scan(evs, pos, depth, parts).1,
    decreases evs.len() - pos,
{
    if pos < evs.len() {
        match evs[pos] {
            EventView::Start(name, _) => if name == "Style"@ {
                let end = element_end(evs, pos + 1, 1);
                lemma_element_fold_bounds(evs, pos + 1, 1, (), no_steps());
                lemma_window_scan_bounds(evs, end, depth, push_some(parts, style_part(evs[pos])));
            } else if name == "LayoutReferenceContainer"@ {
                let (fields, end) = layout_parameter_scan(evs, pos + 1, evs[pos]);
                lemma_layout_scan_bounds(evs, pos + 1, 1, (match event_attribute(evs[pos], "value"@) {
                    Some(v) => v,
                    None => Seq::empty(),
                }, None));
                let shown = match layout_display(fields) {
                    Some(d) => d,
                    None => Seq::empty(),
                };
                lemma_window_scan_bounds(evs, end, depth, parts.push(shown));
            } else if name == "Select"@ {
                let (text, end) = select_scan(evs, pos + 1, 1, None);
                lemma_select_scan_bounds(evs, pos + 1, 1, None);
                lemma_window_scan_bounds(evs, end, depth, push_some(parts, text));
            } else if is_window_calculation(name) {
                let (calculation, end) = calculation_scan(evs, pos + 1);
                lemma_element_fold_bounds(evs, pos + 1, 1, (None, false), calculation_steps());
                let part = match calculation_display(calculation) {
                    Some(d) => Some(capitalized(local_part(name)) + ": "@ + d),
                    None => None,
                };
                lemma_window_scan_bounds(evs, end, depth, push_some(parts, part));
            } else if is_window_option(name) {
                let (value, end) = container_scan(evs, pos + 1);
                lemma_element_fold_bounds(evs, pos + 1, 1, None, container_steps());
                lemma_window_scan_bounds(evs, end, depth, push_some(parts, container_display(local_part(name), value)));
            } else {
                lemma_window_scan_bounds(evs, pos + 1, depth + 1, parts);
            },
            EventView::End(_) => if depth > 1 {
                lemma_window_scan_bounds(evs, pos + 1, depth - 1, parts);
            },
            _ => lemma_window_scan_bounds(evs, pos + 1, depth, parts),
        }
    }
}

/// Adds `part` to `parts` where there is one.
pub fn push_if_some(parts: &mut Vec<String>, part: Option<String>)
    ensures
        final(parts).deep_view() == push_some(old(parts).deep_view(), part.deep_view()),
{
    if let Some(p) = part {
        let ghost before = parts.deep_view();
        parts.push(p);
        assert(parts.deep_view() =~= before.push(p@));
    }
}

impl WindowReference {
    /// Reads a window parameter whose start tag was the last event read.
    pub fn from_xml(reader: &mut XmlReader, _e: &XmlEvent) -> (item: WindowReference)
        ensures
            final(reader).events == old(reader).events,
            (item.parameters.deep_view(), final(reader).pos as int) == window_scan(old(reader).evs(), old(reader).pos as int, 1, Seq::empty()),
    {
        let ghost evs = reader.evs();
        let ghost start = reader.pos as int;
        let mut depth: u128 = 1;
        let mut item = WindowReference { parameters: Vec::new() };
        assert(item.parameters.deep_view() =~= Seq::<Seq<char>>::empty());
        loop
            invariant_except_break
                1 <= depth <= reader.pos + 1,
                window_scan(evs, reader.pos as int, depth as int, item.parameters.deep_view())
                    == window_scan(evs, start, 1, Seq::empty()),
            invariant
                reader.events == old(reader).events,
                evs == reader.evs(),
            ensures
                (item.parameters.deep_view(), reader.pos as int) == window_scan(evs, start, 1, Seq::empty()),
            decreases evs.len() - reader.pos,
        {
            let ghost pos = reader.pos as int;
            match reader.read_event() {
                None => break,
                Some(event) => match event {
                    XmlEvent::Start { name, .. } => {
                        let n = name.as_str();
                        if str_eq(n, "Style") {
                            proof {
                                lemma_element_fold_bounds(evs, pos + 1, 1, (), no_steps());
                            }
                            push_if_some(&mut item.parameters, Style::from_xml(reader, event).display());
                        } else if str_eq(n, "LayoutReferenceContainer") {
                            proof {
                                lemma_layout_scan_bounds(evs, pos + 1, 1, (match event_attribute(evs[pos], "value"@) {
                                    Some(v) => v,
                                    None => Seq::empty(),
                                }, None));
                            }
                            let shown = match LayoutReferenceContainer::from_xml(reader, event) {
                                Ok(layout) => match layout.display() {
                                    Some(d) => d,
                                    None => String::new(),
                                },
                                Err(_) => String::new(),
                            };
                            push_if_some(&mut item.parameters, Some(shown));
                        } else if str_eq(n, "Select") {
                            proof {
                                lemma_select_scan_bounds(evs, pos + 1, 1, None);
                            }
                            let text = match Select::from_xml(reader, event) {
                                Ok(select) => select.display(),
                                Err(_) => None,
                            };
                            push_if_some(&mut item.parameters, text);
                        } else if str_eq(n, "Name") || str_eq(n, "height") || str_eq(n, "width") || str_eq(n, "top")
                            || str_eq(n, "left") || str_eq(n, "Text") {
                            proof {
                                lemma_element_fold_bounds(evs, pos + 1, 1, (None, false), calculation_steps());
                            }
                            let part = match Calculation::from_xml(reader, event) {
                                Ok(calculation) => match calculation.display() {
                                    Some(d) => Some(concat3(capitalize(local_name(n).as_str()).as_str(), ": ", d.as_str())),
                                    None => None,
                                },
                                Err(_) => None,
                            };
                            push_if_some(&mut item.parameters, part);
                        } else if str_eq(n, "Close") || str_eq(n, "Minimize") || str_eq(n, "Maximize") || str_eq(n, "Resize")
                            || str_eq(n, "MenuBar") || str_eq(n, "Toolbar") || str_eq(n, "DimParentWindow") {
                            proof {
                                lemma_element_fold_bounds(evs, pos + 1, 1, None, container_steps());
                            }
                            push_if_some(&mut item.parameters, BooleanContainer::from_xml(reader, event).display());
                        } else {
                            depth = depth + 1;
                        }
                    },
                    XmlEvent::End { .. } => {
                        depth = depth - 1;
                        if depth == 0 {
                            break;
                        }
                    },
                    _ => {},
                },
            }
        }
        item
    }

    /// The parts, separated by ` ; `.
    pub fn display(self) -> (res: String)
        ensures
            res@ == join_seq(self.parameters.deep_view(), " ; "@),
    {
        join(&self.parameters, " ; ")
    }
}

} // verus!
