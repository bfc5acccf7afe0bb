use vstd::prelude::*;
use vstd::string::*;

use crate::text::{parse_i32, parse_i32_spec, signed_decimal, signed_decimal_string, str_eq};
use crate::xml::{element_fold, event_attribute, event_get_attribute, first_attribute, get_attribute, EventView, XmlEvent, XmlReader};

verus! {

/// A reference to a variable, with its repetition.
#[derive(Debug)]
pub struct VariableReference {
    pub name: Option<String>,
    pub repetition: Option<i32>,
}

/// What reading an event does to the repetition: a `<repetition>` start tag sets it to its
/// `value` where that is a number.
pub open spec fn repetition_step(repetition: Option<i32>, event: EventView) -> Option<i32> {
    match event {
        EventView::Start(name, attributes) if name == "repetition"@ => match first_attribute(attributes, "value"@) {
            Some(value) => match parse_i32_spec(value) {
                Some(n) => Some(n),
                None => repetition,
            },
            None => repetition,
        },
        _ => repetition,
    }
}

/// [`repetition_step`] as a function value.
pub open spec fn repetition_steps() -> spec_fn(Option<i32>, EventView) -> Option<i32> {
    |r: Option<i32>, e: EventView| repetition_step(r, e)
}

/// The repetition and end position of the variable element whose content starts at `pos`.
pub open spec fn variable_scan(evs: Seq<EventView>, pos: int) -> (Option<i32>, int) {
    element_fold(evs, pos, 1, None, repetition_steps())
}

/// `name[repetition]`, or the bare name for the first repetition.
pub open spec fn with_repetition(name: Seq<char>, repetition: Option<i32>) -> Seq<char> {
    match repetition {
        Some(r) => if r != 1 {
            name + "["@ + signed_decimal(r as int) + "]"@
        } else {
            name
        },
        None => name,
    }
}

/// Appends `[repetition]` to `out` unless the repetition is the first.
pub fn push_repetition(out: &mut String, repetition: i32)
    ensures
        final(out)@ == with_repetition(old(out)@, Some(repetition)),
{
    if repetition != 1 {
        out.append("[");
        out.append(signed_decimal_string(repetition as i64).as_str());
        out.append("]");
    }
}

impl VariableReference {
    /// Reads a variable element whose start tag `e` was the last event read: the name is its `value`.
    pub fn from_xml(reader: &mut XmlReader, e: &XmlEvent) -> (item: VariableReference)
        ensures
            final(reader).events == old(reader).events,
            item.name.deep_view() == event_attribute(e@, "value"@),
            (item.repetition, final(reader).pos as int) == variable_scan(old(reader).evs(), old(reader).pos as int),
    {
        let ghost evs = reader.evs();
        let ghost start = reader.pos as int;
        let mut depth: u128 = 1;
        let mut item = VariableReference { name: event_get_attribute(e, "value"), repetition: None };
        loop
            invariant_except_break
                1 <= depth <= reader.pos + 1,
                element_fold(evs, reader.pos as int, depth as int, item.repetition, repetition_steps())
                    == variable_scan(evs, start),
            invariant
                reader.events == old(reader).events,
                evs == reader.evs(),
                item.name.deep_view() == event_attribute(e@, "value"@),
            ensures
                (item.repetition, reader.pos as int) == variable_scan(evs, start),
            decreases evs.len() - reader.pos,
        {
            match reader.read_event() {
                None => break,
                Some(XmlEvent::Start { name, attributes }) => {
                    depth = depth + 1;
                    if str_eq(name.as_str(), "repetition") {
                        if let Some(value) = get_attribute(attributes, "value") {
                            if let Some(n) = parse_i32(value.as_str()) {
                                item.repetition = Some(n);
                            }
                        }
                    }
                },
                Some(XmlEvent::End { .. }) => {
                    depth = depth - 1;
                    if depth == 0 {
                        break;
                    }
                },
                Some(_) => {},
            }
        }
        item
    }

    /// The name, with the repetition in brackets unless it is the first.
    pub fn display(self) -> (res: Option<String>)
        ensures
            res.deep_view() == match self.name {
                Some(n) => Some(with_repetition(n@, self.repetition)),
                None => None::<Seq<char>>,
            },
    {
        match self.name {
            Some(mut name) => {
                if let Some(rep) = self.repetition {
                    push_repetition(&mut name, rep);
                }
                Some(name)
            },
            None => None,
        }
    }
}

} // verus!
