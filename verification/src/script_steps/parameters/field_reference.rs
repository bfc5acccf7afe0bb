use vstd::prelude::*;
use vstd::string::*;

use crate::script_steps::parameters::variable_reference::{push_repetition, with_repetition};
use crate::text::{concat3, parse_i32, parse_i32_spec, str_eq, string_of};
use crate::xml::{element_fold, event_attribute, event_get_attribute, first_attribute, get_attribute, EventView, XmlEvent, XmlReader};

verus! {

/// A reference to a field: its table occurrence, name and repetition.
#[derive(Debug)]
pub struct FieldReference {
    pub table_reference: Option<String>,
    pub field_reference: Option<String>,
    pub repetition: Option<i32>,
}

/// The table occurrence, field name and repetition read so far.
pub type FieldFields = (Option<Seq<char>>, Option<Seq<char>>, Option<i32>);

/// What reading an event does: `<FieldReference>` sets the field name, `<TableOccurrenceReference>`
/// the table occurrence (each to the tag's `name`, or nothing), and `<repetition>` the repetition
/// (to its `value` where that is a number, or nothing).
pub open spec fn field_step(fields: FieldFields, event: EventView) -> FieldFields {
    let (table, field, repetition) = fields;
    match event {
        EventView::Start(name, attributes) => if name == "FieldReference"@ {
            (table, first_attribute(attributes, "name"@), repetition)
        } else if name == "TableOccurrenceReference"@ {
            (first_attribute(attributes, "name"@), field, repetition)
        } else if name == "repetition"@ {
            (table, field, match first_attribute(attributes, "value"@) {
                Some(value) => parse_i32_spec(value),
                None => None,
            })
        } else {
            fields
        },
        _ => fields,
    }
}

/// [`field_step`] as a function value.
pub open spec fn field_steps() -> spec_fn(FieldFields, EventView) -> FieldFields {
    |f: FieldFields, e: EventView| field_step(f, e)
}

/// The fields and end position of the field element opened by `e` whose content starts at `pos`.
pub open spec fn field_scan(evs: Seq<EventView>, pos: int, e: EventView) -> (FieldFields, int) {
    element_fold(evs, pos, 1, (None, event_attribute(e, "name"@), None), field_steps())
}

/// `table::field`, with the repetition in brackets unless it is the first; a missing table
/// occurrence or an empty field name shows as a broken reference.
pub open spec fn field_display(fields: FieldFields) -> Seq<char> {
    let (table, field, repetition) = fields;
    match table {
        None => "🚨🚨🚨 BROKEN REFERENCE 🚨🚨🚨"@,
        Some(t) => {
            let f = match field {
                Some(name) => if name.len() > 0 {
                    name
                } else {
                    "🚨🚨🚨 <BROKEN REFERENCE> 🚨🚨🚨"@
                },
                None => "🚨🚨🚨 <BROKEN REFERENCE> 🚨🚨🚨"@,
            };
            with_repetition(t + "::"@ + f, repetition)
        },
    }
}

impl FieldReference {
    /// The table occurrence, field name and repetition, as mathematical values.
    pub open spec fn fields(&self) -> FieldFields {
        (self.table_reference.deep_view(), self.field_reference.deep_view(), self.repetition)
    }

    /// Reads a field element whose start tag `e` was the last event read.
    pub fn from_xml(reader: &mut XmlReader, e: &XmlEvent) -> (res: Result<FieldReference, String>)
        ensures
            final(reader).events == old(reader).events,
            res matches Ok(item) && (item.fields(), final(reader).pos as int)
                == field_scan(old(reader).evs(), old(reader).pos as int, e@),
    {
        let ghost evs = reader.evs();
        let ghost start = reader.pos as int;
        let mut depth: u128 = 1;
        let mut item = FieldReference {
            table_reference: None,
            field_reference: event_get_attribute(e, "name"),
            repetition: None,
        };
        loop
            invariant_except_break
                1 <= depth <= reader.pos + 1,
                element_fold(evs, reader.pos as int, depth as int, item.fields(), field_steps())
                    == field_scan(evs, start, e@),
            invariant
                reader.events == old(reader).events,
                evs == reader.evs(),
            ensures
                (item.fields(), reader.pos as int) == field_scan(evs, start, e@),
            decreases evs.len() - reader.pos,
        {
            match reader.read_event() {
                None => break,
                Some(XmlEvent::Start { name, attributes }) => {
                    depth = depth + 1;
                    if str_eq(name.as_str(), "FieldReference") {
                        item.field_reference = get_attribute(attributes, "name");
                    } else if str_eq(name.as_str(), "TableOccurrenceReference") {
                        item.table_reference = get_attribute(attributes, "name");
                    } else if str_eq(name.as_str(), "repetition") {
                        item.repetition = match get_attribute(attributes, "value") {
                            Some(value) => parse_i32(value.as_str()),
                            None => None,
                        };
                    }
                },
                Some(XmlEvent::End { .. }) => {
                    depth = depth - 1;
                    if depth == 0 {
                        break;
                    }
                },
                Some(_) => {},
            }
        }
        Ok(item)
    }

    /// `table::field[repetition]`, or a broken reference marker.
    pub fn display(&self) -> (res: Option<String>)
        ensures
            res matches Some(s) && s@ == field_display(self.fields()),
    {
        let table = match &self.table_reference {
            Some(t) => t,
            None => {
                return Some(string_of("🚨🚨🚨 BROKEN REFERENCE 🚨🚨🚨"));
            },
        };
        let field: &str = match &self.field_reference {
            Some(name) => if name.unicode_len() > 0 {
                name.as_str()
            } else {
                "🚨🚨🚨 <BROKEN REFERENCE> 🚨🚨🚨"
            },
            None => "🚨🚨🚨 <BROKEN REFERENCE> 🚨🚨🚨",
        };
        let mut out = concat3(table.as_str(), "::", field);
        if let Some(rep) = self.repetition {
            push_repetition(&mut out, rep);
        }
        Some(out)
    }
}

} // verus!
