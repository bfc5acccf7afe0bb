use vstd::prelude::*;

use crate::script_steps::parameters::calculation::{calculation_display, calculation_scan, calculation_steps, Calculation};
use crate::text::{concat, concat3, str_eq};
use crate::xml::{event_attribute, event_get_attribute, first_attribute, get_attribute, lemma_element_fold_bounds, EventView, XmlEvent, XmlReader};

verus! {

/// A layout parameter: how the layout is chosen, and which.
#[derive(Debug)]
pub struct LayoutReferenceContainer {
    pub reference_type: String,
    pub layout_reference: Option<String>,
}

/// The label and end position of a `<Label>` element whose content starts at `pos`: the last
/// text before the first end tag.
pub open spec fn label_scan(evs: Seq<EventView>, pos: int, label: Seq<char>) -> (Seq<char>, int)
    decreases evs.len() - pos,
{
    if pos >= evs.len() {
        (label, pos)
    } else {
        match evs[pos] {
            EventView::Text(content) => label_scan(evs, pos + 1, content),
            EventView::End(_) => (label, pos + 1),
            _ => label_scan(evs, pos + 1, label),
        }
    }
}

/// A label scan ends between where it starts and the end of the list, past its start where
/// there is an event to read.
pub proof fn lemma_label_scan_bounds(evs: Seq<EventView>, pos: int, label: Seq<char>)
    requires
        0 <= pos <= evs.len(),
    ensures
        pos <= label_scan(evs, pos, label).1 <= evs.len(),
        pos < evs.len() ==> pos < label_scan(evs, pos, label).1,
    decreases evs.len() - pos,
{
    if pos < evs.len() {
        match evs[pos] {
            EventView::Text(content) => lemma_label_scan_bounds(evs, pos + 1, content),
            EventView::End(_) => {},
            _ => lemma_label_scan_bounds(evs, pos + 1, label),
        }
    }
}

/// The value of the attribute `key`, or empty.
pub open spec fn attribute_or_empty(attributes: Seq<(Seq<char>, Seq<char>)>, key: Seq<char>) -> Seq<char> {
    match first_attribute(attributes, key) {
        Some(v) => v,
        None => Seq::empty(),
    }
}

/// The reference type and layout read so far.
pub type LayoutFields = (Seq<char>, Option<Seq<char>>);

/// Reads the rest of a layout parameter from `pos` on, with `depth` elements open:
/// `<LayoutReferenceContainer>` sets the reference type to its `value`, `<LayoutReference>`
/// the layout to its `name`; a `<Label>` or a calculation inside gives the layout by its text.
pub open spec fn layout_scan(evs: Seq<EventView>, pos: int, depth: int, fields: LayoutFields) -> (LayoutFields, int)
    decreases evs.len() - pos,
{
    if pos < 0 || pos >= evs.len() {
        (fields, pos)
    } else {
        let (kind, layout) = fields;
        match evs[pos] {
            EventView::Start(name, attributes) => if name == "LayoutReferenceContainer"@ {
                layout_scan(evs, pos + 1, depth + 1, (attribute_or_empty(attributes, "value"@), layout))
            } else if name == "LayoutReference"@ {
                layout_scan(evs, pos + 1, depth + 1, (kind, first_attribute(attributes, "name"@)))
            } else if name == "Label"@ {
                let (label, end) = label_scan(evs, pos + 1, Seq::empty());
                proof {
                    lemma_label_scan_bounds(evs, pos + 1, Seq::empty());
                }
                layout_scan(evs, end, depth, (kind, Some(label)))
            } else if name == "Calculation"@ {
                let (calculation, end) = calculation_scan(evs, pos + 1);
                proof {
                    lemma_element_fold_bounds(evs, pos + 1, 1, (None, false), calculation_steps());
                }
                layout_scan(evs, end, depth, (kind, calculation_display(calculation)))
            } else {
                layout_scan(evs, pos + 1, depth + 1, fields)
            },
            EventView::End(_) => if depth <= 1 {
                (fields, pos + 1)
            } else {
                layout_scan(evs, pos + 1, depth - 1, fields)
            },
            _ => layout_scan(evs, pos + 1, depth, fields),
        }
    }
}

/// A layout scan ends between where it starts and the end of the list, past its start where
/// there is an event to read.
pub proof fn lemma_layout_scan_bounds(evs: Seq<EventView>, pos: int, depth: int, fields: LayoutFields)
    requires
        0 <= pos <= evs.len(),
    ensures
        pos <= layout_scan(evs, pos, depth, fields).1 <= evs.len(),
        pos < evs.len() ==> pos < layout_scan(evs, pos, depth, fields).1,
    decreases evs.len() - pos,
{
    if pos < evs.len() {
        let (kind, layout) = fields;
        match evs[pos] {
            EventView::Start(name, attributes) => if name == "LayoutReferenceContainer"@ {
                lemma_layout_scan_bounds(evs, pos + 1, depth + 1, (attribute_or_empty(attributes, "value"@), layout));
            } else if name == "LayoutReference"@ {
                lemma_layout_scan_bounds(evs, pos + 1, depth + 1, (kind, first_attribute(attributes, "name"@)));
            } else if name == "Label"@ {
                let (label, end) = label_scan(evs, pos + 1, Seq::empty());
                lemma_label_scan_bounds(evs, pos + 1, Seq::empty());
                lemma_layout_scan_bounds(evs, end, depth, (kind, Some(label)));
            } else if name == "Calculation"@ {
                let (calculation, end) = calculation_scan(evs, pos + 1);
                lemma_element_fold_bounds(evs, pos + 1, 1, (None, false), calculation_steps());
                lemma_layout_scan_bounds(evs, end, depth, (kind, calculation_display(calculation)));
            } else {
                lemma_layout_scan_bounds(evs, pos + 1, depth + 1, fields);
            },
            EventView::End(_) => if depth > 1 {
                lemma_layout_scan_bounds(evs, pos + 1, depth - 1, fields);
            },
            _ => lemma_layout_scan_bounds(evs, pos + 1, depth, fields),
        }
    }
}

/// The fields and end position of the layout parameter opened by `e` whose content starts at `pos`.
pub open spec fn layout_parameter_scan(evs: Seq<EventView>, pos: int, e: EventView) -> (LayoutFields, int) {
    let kind = match event_attribute(e, "value"@) {
        Some(v) => v,
        None => Seq::empty(),
    };
    layout_scan(evs, pos, 1, (kind, None))
}

/// The layout, or a broken reference marker.
pub open spec fn layout_or_broken(layout: Option<Seq<char>>) -> Seq<char> {
    match layout {
        Some(l) => l,
        None => "🚨🚨🚨 <BROKEN REFERENCE> 🚨🚨🚨"@,
    }
}

/// How a layout parameter is shown, by its reference type: `1` the original layout,
/// `3` a layout by name, `4` by number, `5` a named layout; other types are not shown.
pub open spec fn layout_display(fields: LayoutFields) -> Option<Seq<char>> {
    let (kind, layout) = fields;
    let l = layout_or_broken(layout);
    if kind == "1"@ {
        Some("Layout: <"@ + l + ">"@)
    } else if kind == "3"@ {
        Some("Layoutname: "@ + l)
    } else if kind == "4"@ {
        Some("Layoutnr.: "@ + l)
    } else if kind == "5"@ {
        Some("Layout: \""@ + l + "\""@)
    } else {
        None
    }
}

impl LayoutReferenceContainer {
    /// The reference type and layout, as mathematical values.
    pub open spec fn fields(&self) -> LayoutFields {
        (self.reference_type@, self.layout_reference.deep_view())
    }

    /// Reads a `<Label>` element whose start tag was the last event read: its last text.
    pub fn parse_label(reader: &mut XmlReader, _e: &XmlEvent) -> (res: Result<String, String>)
        ensures
            final(reader).events == old(reader).events,
            res matches Ok(label) && (label@, final(reader).pos as int) == label_scan(old(reader).evs(), old(reader).pos as int, Seq::empty()),
    {
        let ghost evs = reader.evs();
        let ghost start = reader.pos as int;
        let mut label = String::new();
        loop
            invariant_except_break
                label_scan(evs, reader.pos as int, label@) == label_scan(evs, start, Seq::empty()),
            invariant
                reader.events == old(reader).events,
                evs == reader.evs(),
            ensures
                (label@, reader.pos as int) == label_scan(evs, start, Seq::empty()),
            decreases evs.len() - reader.pos,
        {
            match reader.read_event() {
                None => break,
                Some(XmlEvent::Text { content }) => {
                    label = content.clone();
                },
                Some(XmlEvent::End { .. }) => break,
                Some(_) => {},
            }
        }
        Ok(label)
    }

    /// Reads a layout parameter whose start tag `e` was the last event read.
    pub fn from_xml(reader: &mut XmlReader, e: &XmlEvent) -> (res: Result<LayoutReferenceContainer, String>)
        ensures
            final(reader).events == old(reader).events,
            res matches Ok(item) && (item.fields(), final(reader).pos as int)
                == layout_parameter_scan(old(reader).evs(), old(reader).pos as int, e@),
    {
        let ghost evs = reader.evs();
        let ghost start = reader.pos as int;
        let mut depth: u128 = 1;
        let mut item = LayoutReferenceContainer {
            reference_type: match event_get_attribute(e, "value") {
                Some(v) => v,
                None => String::new(),
            },
            layout_reference: None,
        };
        loop
            invariant_except_break
                1 <= depth <= reader.pos + 1,
                layout_scan(evs, reader.pos as int, depth as int, item.fields())
                    == layout_parameter_scan(evs, start, e@),
            invariant
                reader.events == old(reader).events,
                evs == reader.evs(),
            ensures
                (item.fields(), reader.pos as int) == layout_parameter_scan(evs, start, e@),
            decreases evs.len() - reader.pos,
        {
            let ghost pos = reader.pos as int;
            match reader.read_event() {
                None => break,
                Some(event) => match event {
                    XmlEvent::Start { name, attributes } => {
                        if str_eq(name.as_str(), "LayoutReferenceContainer") {
                            item.reference_type = match get_attribute(attributes, "value") {
                                Some(v) => v,
                                None => String::new(),
                            };
                            depth = depth + 1;
                        } else if str_eq(name.as_str(), "LayoutReference") {
                            item.layout_reference = get_attribute(attributes, "name");
                            depth = depth + 1;
                        } else if str_eq(name.as_str(), "Label") {
                            proof {
                                lemma_label_scan_bounds(evs, pos + 1, Seq::empty());
                            }
                            if let Ok(label) = Self::parse_label(reader, event) {
                                item.layout_reference = Some(label);
                            }
                        } else if str_eq(name.as_str(), "Calculation") {
                            proof {
                                lemma_element_fold_bounds(evs, pos + 1, 1, (None, false), calculation_steps());
                            }
                            if let Ok(calculation) = Calculation::from_xml(reader, event) {
                                item.layout_reference = calculation.display();
                            }
                        } else {
                            depth = depth + 1;
                        }
                    },
                    XmlEvent::End { .. } => {
                        depth = depth - 1;
                        if depth == 0 {
                            break;
                        }
                    },
                    _ => {},
                },
            }
        }
        Ok(item)
    }

    /// The layout as it is shown for its reference type; `None` for other types.
    pub fn display(&self) -> (res: Option<String>)
        ensures
            res.deep_view() == layout_display(self.fields()),
    {
        proof {
            reveal_strlit("1");
            reveal_strlit("3");
            reveal_strlit("4");
            reveal_strlit("5");
        }
        let layout: &str = match &self.layout_reference {
            Some(l) => l.as_str(),
            None => "🚨🚨🚨 <BROKEN REFERENCE> 🚨🚨🚨",
        };
        let kind = self.reference_type.as_str();
        if str_eq(kind, "1") {
            Some(concat3("Layout: <", layout, ">"))
        } else if str_eq(kind, "3") {
            Some(concat("Layoutname: ", layout))
        } else if str_eq(kind, "4") {
            Some(concat("Layoutnr.: ", layout))
        } else if str_eq(kind, "5") {
            Some(concat3("Layout: \"", layout, "\""))
        } else {
            None
        }
    }
}

} // verus!
