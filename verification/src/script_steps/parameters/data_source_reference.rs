use vstd::prelude::*;

use crate::text::{concat3, str_eq};
use crate::xml::{element_fold, parse_unescaped_attribute, unescaped_attribute, EventView, XmlEvent, XmlReader};

verus! {

/// A reference to a data source: its id and name.
#[derive(Debug)]
pub struct DataSourceReference {
    pub id: Option<String>,
    pub name: Option<String>,
}

/// The id and name read so far.
pub type DataSourceFields = (Option<Seq<char>>, Option<Seq<char>>);

/// What reading an event does: a `<DataSourceReference>` start tag sets both to its unescaped
/// `id` and `name`.
pub open spec fn data_source_step(fields: DataSourceFields, event: EventView) -> DataSourceFields {
    match event {
        EventView::Start(name, attributes) if name == "DataSourceReference"@ => (
            unescaped_attribute(attributes, "id"@),
            unescaped_attribute(attributes, "name"@),
        ),
        _ => fields,
    }
}

/// [`data_source_step`] as a function value.
pub open spec fn data_source_steps() -> spec_fn(DataSourceFields, EventView) -> DataSourceFields {
    |f: DataSourceFields, e: EventView| data_source_step(f, e)
}

/// The id, name and end position of the data source parameter whose content starts at `pos`.
pub open spec fn data_source_scan(evs: Seq<EventView>, pos: int) -> (DataSourceFields, int) {
    element_fold(evs, pos, 1, (None, None), data_source_steps())
}

/// The data source with id `0` (the file itself) by its bare name, others by their quoted name.
pub open spec fn data_source_display(fields: DataSourceFields) -> Option<Seq<char>> {
    let (id, name) = fields;
    match name {
        Some(n) => if id == Some("0"@) {
            Some(n)
        } else {
            Some("\""@ + n + "\""@)
        },
        None => None,
    }
}

impl DataSourceReference {
    /// The id and name, as mathematical values.
    pub open spec fn fields(&self) -> DataSourceFields {
        (self.id.deep_view(), self.name.deep_view())
    }

    /// Reads a data source parameter whose start tag was the last event read.
    pub fn from_xml(reader: &mut XmlReader, _e: &XmlEvent) -> (res: Option<DataSourceReference>)
        ensures
            final(reader).events == old(reader).events,
            res matches Some(item) && (item.fields(), final(reader).pos as int)
                == data_source_scan(old(reader).evs(), old(reader).pos as int),
    {
        let ghost evs = reader.evs();
        let ghost start = reader.pos as int;
        let mut depth: u128 = 1;
        let mut item = DataSourceReference { id: None, name: None };
        loop
            invariant_except_break
                1 <= depth <= reader.pos + 1,
                element_fold(evs, reader.pos as int, depth as int, item.fields(), data_source_steps())
                    == data_source_scan(evs, start),
            invariant
                reader.events == old(reader).events,
                evs == reader.evs(),
            ensures
                (item.fields(), reader.pos as int) == data_source_scan(evs, start),
            decreases evs.len() - reader.pos,
        {
            match reader.read_event() {
                None => break,
                Some(XmlEvent::Start { name, attributes }) => {
                    depth = depth + 1;
                    if str_eq(name.as_str(), "DataSourceReference") {
                        item.id = parse_unescaped_attribute(attributes, "id");
                        item.name = parse_unescaped_attribute(attributes, "name");
                    }
                },
                Some(XmlEvent::End { .. }) => {
                    depth = depth - 1;
                    if depth == 0 {
                        break;
                    }
                },
                Some(_) => {},
            }
        }
        Some(item)
    }

    /// The name, quoted unless the data source is the file itself.
    pub fn display(&self) -> (res: Option<String>)
        ensures
            res.deep_view() == data_source_display(self.fields()),
    {
        proof {
            reveal_strlit("0");
        }
        match &self.name {
            Some(name) => {
                let own_file = match &self.id {
                    Some(id) => str_eq(id.as_str(), "0"),
                    None => false,
                };
                if own_file {
                    Some(name.clone())
                } else {
                    Some(concat3("\"", name.as_str(), "\""))
                }
            },
            None => None,
        }
    }
}

} // verus!
