use vstd::prelude::*;

use crate::script_steps::parameters::calculation::{calculation_display, calculation_scan, calculation_steps, Calculation};
use crate::text::{concat, str_eq};
use crate::xml::{lemma_element_fold_bounds, EventView, XmlEvent, XmlReader};

verus! {

/// A window selection parameter: the window's name, where it is calculated.
#[derive(Debug)]
pub struct Select {
    pub text: Option<String>,
}

/// Reads the rest of a selection from `pos` on, with `depth` elements open: each calculation
/// inside that shows gives the text `Name: <formula>`.
pub open spec fn select_scan(evs: Seq<EventView>, pos: int, depth: int, text: Option<Seq<char>>) -> (Option<Seq<char>>, int)
    decreases evs.len() - pos,
{
    if pos < 0 || pos >= evs.len() {
        (text, pos)
    } else {
        match evs[pos] {
            EventView::Start(name, _) => if name == "Calculation"@ {
                let (calculation, end) = calculation_scan(evs, pos + 1);
                proof {
                    lemma_element_fold_bounds(evs, pos + 1, 1, (None, false), calculation_steps());
                }
                let next = match calculation_display(calculation) {
                    Some(d) => Some("Name: "@ + d),
                    None => text,
                };
                select_scan(evs, end, depth, next)
            } else {
                select_scan(evs, pos + 1, depth + 1, text)
            },
            EventView::End(_) => if depth <= 1 {
                (text, pos + 1)
            } else {
                select_scan(evs, pos + 1, depth - 1, text)
            },
            _ => select_scan(evs, pos + 1, depth, text),
        }
    }
}

/// A selection scan ends between where it starts and the end of the list, past its start
/// where there is an event to read.
pub proof fn lemma_select_scan_bounds(evs: Seq<EventView>, pos: int, depth: int, text: Option<Seq<char>>)
    requires
        0 <= pos <= evs.len(),
    ensures
        pos <= select_scan(evs, pos, depth, text).1 <= evs.len(),
        pos < evs.len() ==> pos < select_scan(evs, pos, depth, text).1,
    decreases evs.len() - pos,
{
    if pos < evs.len() {
        match evs[pos] {
            EventView::Start(name, _) => if name == "Calculation"@ {
                let (calculation, end) = calculation_scan(evs, pos + 1);
                lemma_element_fold_bounds(evs, pos + 1, 1, (None, false), calculation_steps());
                let next = match calculation_display(calculation) {
                    Some(d) => Some("Name: "@ + d),
                    None => text,
                };
                lemma_select_scan_bounds(evs, end, depth, next);
            } else {
                lemma_select_scan_bounds(evs, pos + 1, depth + 1, text);
            },
            EventView::End(_) => if depth > 1 {
                lemma_select_scan_bounds(evs, pos + 1, depth - 1, text);
            },
            _ => lemma_select_scan_bounds(evs, pos + 1, depth, text),
        }
    }
}

impl Select {
    /// Reads a selection parameter whose start tag was the last event read.
    pub fn from_xml(reader: &mut XmlReader, _e: &XmlEvent) -> (res: Result<Select, String>)
        ensures
            final(reader).events == old(reader).events,
            res matches Ok(item) && (item.text.deep_view(), final(reader).pos as int)
                == select_scan(old(reader).evs(), old(reader).pos as int, 1, None),
    {
        let ghost evs = reader.evs();
        let ghost start = reader.pos as int;
        let mut depth: u128 = 1;
        let mut item = Select { text: None };
        loop
            invariant_except_break
                1 <= depth <= reader.pos + 1,
                select_scan(evs, reader.pos as int, depth as int, item.text.deep_view()) == select_scan(evs, start, 1, None),
            invariant
                reader.events == old(reader).events,
                evs == reader.evs(),
            ensures
                (item.text.deep_view(), reader.pos as int) == select_scan(evs, start, 1, None),
            decreases evs.len() - reader.pos,
        {
            let ghost pos = reader.pos as int;
            match reader.read_event() {
                None => break,
                Some(event) => match event {
                    XmlEvent::Start { name, .. } => {
                        if str_eq(name.as_str(), "Calculation") {
                            proof {
                                lemma_element_fold_bounds(evs, pos + 1, 1, (None, false), calculation_steps());
                            }
                            if let Ok(calculation) = Calculation::from_xml(reader, event) {
                                if let Some(display) = calculation.display() {
                                    item.text = Some(concat("Name: ", display.as_str()));
                                }
                            }
                        } else {
                            depth = depth + 1;
                        }
                    },
                    XmlEvent::End { .. } => {
                        depth = depth - 1;
                        if depth == 0 {
                            break;
                        }
                    },
                    _ => {},
                },
            }
        }
        Ok(item)
    }

    /// The window's name.
    pub fn display(&self) -> (res: Option<String>)
        ensures
            res == self.text,
    {
        self.text.clone()
    }
}

} // verus!
