use vstd::prelude::*;

use crate::script_steps::parameters::layout_reference::{lemma_layout_scan_bounds, layout_display, layout_parameter_scan, LayoutReferenceContainer};
use crate::text::{concat, join, join_seq, str_eq, string_of};
use crate::xml::{attribute_is, event_attribute, first_attribute, get_attribute, EventView, XmlEvent, XmlReader};

verus! {

/// A "Go to Related Record" parameter: the parts of its description, in order.
#[derive(Debug)]
pub struct Related {
    pub parameters: Vec<String>,
}

/// The table occurrence's name, or a broken reference marker.
pub open spec fn table_or_broken(name: Option<Seq<char>>) -> Seq<char> {
    match name {
        Some(n) => n,
        None => "🚨🚨🚨 <BROKEN REFERENCE> 🚨🚨🚨"@,
    }
}

/// The parts that an `<Options>` tag adds.
pub open spec fn related_options(attributes: Seq<(Seq<char>, Seq<char>)>) -> Seq<Seq<char>> {
    let a = if first_attribute(attributes, "ShowRelated"@) == Some("True"@) {
        seq!["Show related"@]
    } else {
        Seq::empty()
    };
    let b = if first_attribute(attributes, "matchFoundSet"@) == Some("True"@) {
        seq!["Match found set"@]
    } else {
        Seq::empty()
    };
    a + b
}

/// Reads the rest of the parameter from `pos` on, with `depth` elements open, collecting its
/// parts: the table occurrence, the layout (read whole), `New window` for a window reference
/// (whose tag then counts as closed), and the options that are set.
pub open spec fn related_scan(evs: Seq<EventView>, pos: int, depth: int, parts: Seq<Seq<char>>) -> (Seq<Seq<char>>, int)
    decreases evs.len() - pos,
{
    if pos < 0 || pos >= evs.len() {
        (parts, pos)
    } else {
        match evs[pos] {
            EventView::Start(name, attributes) => if name == "TableOccurrenceReference"@ {
                related_scan(evs, pos + 1, depth + 1, parts.push("Table: "@ + table_or_broken(first_attribute(attributes, "name"@))))
            } else if name == "LayoutReferenceContainer"@ {
                let (fields, end) = layout_parameter_scan(evs, pos + 1, evs[pos]);
                proof {
                    lemma_layout_scan_bounds(evs, pos + 1, 1, (match event_attribute(evs[pos], "value"@) {
                        Some(v) => v,
                        None => Seq::empty(),
                    }, None));
                }
                let shown = match layout_display(fields) {
                    Some(d) => d,
                    None => Seq::empty(),
                };
                related_scan(evs, end, depth, parts.push(shown))
            } else if name == "WindowReference"@ {
                related_scan(evs, pos + 1, depth, parts.push("New window"@))
            } else if name == "Options"@ {
                related_scan(evs, pos + 1, depth + 1, parts + related_options(attributes))
            } else {
                related_scan(evs, pos + 1, depth + 1, parts)
            },
            EventView::End(_) => if depth <= 1 {
                (parts, pos + 1)
            } else {
                related_scan(evs, pos + 1, depth - 1, parts)
            },
            _ => related_scan(evs, pos + 1, depth, parts),
        }
    }
}

/// A related scan ends between where it starts and the end of the list, past its start where
/// there is an event to read.
pub proof fn lemma_related_scan_bounds(evs: Seq<EventView>, pos: int, depth: int, parts: Seq<Seq<char>>)
    requires
        0 <= pos <= evs.len(),
    ensures
        pos <= related_scan(evs, pos, depth, parts).1 <= evs.len(),
        pos < evs.len() ==> pos < related_scan(evs, pos, depth, parts).1,
    decreases evs.len() - pos,
{
    if pos < evs.len() {
        match evs[pos] {
            EventView::Start(name, attributes) => if name == "TableOccurrenceReference"@ {
                lemma_related_scan_bounds(evs, pos + 1, depth + 1, parts.push("Table: "@ + table_or_broken(first_attribute(attributes, "name"@))));
            } else if name == "LayoutReferenceContainer"@ {
                let (fields, end) = layout_parameter_scan(evs, pos + 1, evs[pos]);
                lemma_layout_scan_bounds(evs, pos + 1, 1, (match event_attribute(evs[pos], "value"@) {
                    Some(v) => v,
                    None => Seq::empty(),
                }, None));
                let shown = match layout_display(fields) {
                    Some(d) => d,
                    None => Seq::empty(),
                };
                lemma_related_scan_bounds(evs, end, depth, parts.push(shown));
            } else if name == "WindowReference"@ {
                lemma_related_scan_bounds(evs, pos + 1, depth, parts.push("New window"@));
            } else if name == "Options"@ {
                lemma_related_scan_bounds(evs, pos + 1, depth + 1, parts + related_options(attributes));
            } else {
                lemma_related_scan_bounds(evs, pos + 1, depth + 1, parts);
            },
            EventView::End(_) => if depth > 1 {
                lemma_related_scan_bounds(evs, pos + 1, depth - 1, parts);
            },
            _ => lemma_related_scan_bounds(evs, pos + 1, depth, parts),
        }
    }
}

impl Related {
    /// Reads a "Go to Related Record" parameter whose start tag was the last event read.
    pub fn from_xml(reader: &mut XmlReader, _e: &XmlEvent) -> (item: Related)
        ensures
            final(reader).events == old(reader).events,
            (item.parameters.deep_view(), final(reader).pos as int) == related_scan(old(reader).evs(), old(reader).pos as int, 1, Seq::empty()),
    {
        let ghost evs = reader.evs();
        let ghost start = reader.pos as int;
        let mut depth: u128 = 1;
        let mut item = Related { parameters: Vec::new() };
        assert(item.parameters.deep_view() =~= Seq::<Seq<char>>::empty());
        loop
            invariant_except_break
                1 <= depth <= reader.pos + 1,
                related_scan(evs, reader.pos as int, depth as int, item.parameters.deep_view())
                    == related_scan(evs, start, 1, Seq::empty()),
            invariant
                reader.events == old(reader).events,
                evs == reader.evs(),
            ensures
                (item.parameters.deep_view(), reader.pos as int) == related_scan(evs, start, 1, Seq::empty()),
            decreases evs.len() - reader.pos,
        {
            let ghost pos = reader.pos as int;
            let ghost before = item.parameters.deep_view();
            match reader.read_event() {
                None => break,
                Some(event) => match event {
                    XmlEvent::Start { name, attributes } => {
                        if str_eq(name.as_str(), "TableOccurrenceReference") {
                            let table = match get_attribute(attributes, "name") {
                                Some(n) => n,
                                None => string_of("🚨🚨🚨 <BROKEN REFERENCE> 🚨🚨🚨"),
                            };
                            item.parameters.push(concat("Table: ", table.as_str()));
                            assert(item.parameters.deep_view() =~= before.push("Table: "@ + table_or_broken(first_attribute(attributes.deep_view(), "name"@))));
                            depth = depth + 1;
                        } else if str_eq(name.as_str(), "LayoutReferenceContainer") {
                            proof {
                                lemma_layout_scan_bounds(evs, pos + 1, 1, (match event_attribute(evs[pos], "value"@) {
                                    Some(v) => v,
                                    None => Seq::empty(),
                                }, None));
                            }
                            let shown = match LayoutReferenceContainer::from_xml(reader, event) {
                                Ok(layout) => match layout.display() {
                                    Some(d) => d,
                                    None => String::new(),
                                },
                                Err(_) => String::new(),
                            };
                            item.parameters.push(shown);
                            assert(item.parameters.deep_view() =~= before.push(shown@));
                        } else if str_eq(name.as_str(), "WindowReference") {
                            item.parameters.push(string_of("New window"));
                            assert(item.parameters.deep_view() =~= before.push("New window"@));
                        } else if str_eq(name.as_str(), "Options") {
                            if attribute_is(attributes, "ShowRelated", "True") {
                                item.parameters.push(string_of("Show related"));
                            }
                            let ghost mid = item.parameters.deep_view();
                            if attribute_is(attributes, "matchFoundSet", "True") {
                                item.parameters.push(string_of("Match found set"));
                            }
                            assert(item.parameters.deep_view() =~= before + related_options(attributes.deep_view()));
                            depth = depth + 1;
                        } else {
                            depth = depth + 1;
                        }
                    },
                    XmlEvent::End { .. } => {
                        depth = depth - 1;
                        if depth == 0 {
                            break;
                        }
                    },
                    _ => {},
                },
            }
        }
        item
    }

    /// The parts, separated by ` ; `.
    pub fn display(self) -> (res: String)
        ensures
            res@ == join_seq(self.parameters.deep_view(), " ; "@),
    {
        join(&self.parameters, " ; ")
    }
}

} // verus!
