use vstd::prelude::*;

use crate::text::str_eq;
use crate::xml::{element_fold, EventView, XmlEvent, XmlReader};

verus! {

/// A calculation parameter: the formula text of its `<Text>` element.
#[derive(Debug)]
pub struct Calculation {
    pub calculation: Option<String>,
}

/// The formula read so far, and whether the reader is inside a `<Text>` element.
pub type CalculationFields = (Option<Seq<char>>, bool);

/// What reading an event does: `<Text>` opens the formula text, `</Text>` closes it, and a
/// CDATA section inside it becomes the formula.
pub open spec fn calculation_step(fields: CalculationFields, event: EventView) -> CalculationFields {
    let (calculation, in_text) = fields;
    match event {
        EventView::Start(name, _) if name == "Text"@ => (calculation, true),
        EventView::CData(content) => if in_text {
            (Some(content), in_text)
        } else {
            fields
        },
        EventView::End(name) if name == "Text"@ => (calculation, false),
        _ => fields,
    }
}

/// [`calculation_step`] as a function value.
pub open spec fn calculation_steps() -> spec_fn(CalculationFields, EventView) -> CalculationFields {
    |f: CalculationFields, e: EventView| calculation_step(f, e)
}

/// The formula and end position of the calculation element whose content starts at `pos`.
pub open spec fn calculation_scan(evs: Seq<EventView>, pos: int) -> (Option<Seq<char>>, int) {
    let (fields, end) = element_fold(evs, pos, 1, (None, false), calculation_steps());
    (fields.0, end)
}

/// A formula is shown where it is not empty.
pub open spec fn calculation_display(calculation: Option<Seq<char>>) -> Option<Seq<char>> {
    match calculation {
        Some(text) => if text.len() > 0 {
            Some(text)
        } else {
            None
        },
        None => None,
    }
}

impl Calculation {
    /// Reads a calculation element whose start tag was the last event read.
    pub fn from_xml(reader: &mut XmlReader, _e: &XmlEvent) -> (res: Result<Calculation, String>)
        ensures
            final(reader).events == old(reader).events,
            res matches Ok(item) && (item.calculation.deep_view(), final(reader).pos as int)
                == calculation_scan(old(reader).evs(), old(reader).pos as int),
    {
        let ghost evs = reader.evs();
        let ghost start = reader.pos as int;
        let mut depth: u128 = 1;
        let mut in_text = false;
        let mut item = Calculation { calculation: None };
        loop
            invariant_except_break
                1 <= depth <= reader.pos + 1,
                element_fold(evs, reader.pos as int, depth as int, (item.calculation.deep_view(), in_text), calculation_steps())
                    == element_fold(evs, start, 1, (None, false), calculation_steps()),
            invariant
                reader.events == old(reader).events,
                evs == reader.evs(),
            ensures
                (item.calculation.deep_view(), reader.pos as int) == calculation_scan(evs, start),
            decreases evs.len() - reader.pos,
        {
            match reader.read_event() {
                None => break,
                Some(XmlEvent::Start { name, .. }) => {
                    depth = depth + 1;
                    if str_eq(name.as_str(), "Text") {
                        in_text = true;
                    }
                },
                Some(XmlEvent::CData { content }) => {
                    if in_text {
                        item.calculation = Some(content.clone());
                    }
                },
                Some(XmlEvent::End { name }) => {
                    depth = depth - 1;
                    if depth == 0 {
                        break;
                    }
                    if str_eq(name.as_str(), "Text") {
                        in_text = false;
                    }
                },
                Some(_) => {},
            }
        }
        Ok(item)
    }

    /// The formula, where it is not empty.
    pub fn display(&self) -> (res: Option<String>)
        ensures
            res.deep_view() == calculation_display(self.calculation.deep_view()),
    {
        match &self.calculation {
            Some(item) => {
                if item.unicode_len() == 0 {
                    None
                } else {
                    Some(item.clone())
                }
            },
            None => None,
        }
    }
}

} // verus!
