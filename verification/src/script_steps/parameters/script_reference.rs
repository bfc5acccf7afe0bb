use vstd::prelude::*;

use crate::text::{concat3, str_eq};
use crate::xml::{element_fold, parse_unescaped_attribute, unescaped_attribute, EventView, XmlEvent, XmlReader};

verus! {

/// A reference to a script, possibly in another file.
#[derive(Debug)]
pub struct ScriptReference {
    pub data_source_name: Option<String>,
    pub script_name: Option<String>,
}

/// The data source name and script name read so far.
pub type ScriptReferenceFields = (Option<Seq<char>>, Option<Seq<char>>);

/// What reading an event does: `<DataSourceReference>` sets the data source name and
/// `<ScriptReference>` the script name, each to the tag's unescaped `name`.
pub open spec fn script_reference_step(fields: ScriptReferenceFields, event: EventView) -> ScriptReferenceFields {
    let (data_source, script) = fields;
    match event {
        EventView::Start(name, attributes) => if name == "DataSourceReference"@ {
            (unescaped_attribute(attributes, "name"@), script)
        } else if name == "ScriptReference"@ {
            (data_source, unescaped_attribute(attributes, "name"@))
        } else {
            fields
        },
        _ => fields,
    }
}

/// [`script_reference_step`] as a function value.
pub open spec fn script_reference_steps() -> spec_fn(ScriptReferenceFields, EventView) -> ScriptReferenceFields {
    |f: ScriptReferenceFields, e: EventView| script_reference_step(f, e)
}

/// The names and end position of the script reference parameter whose content starts at `pos`.
pub open spec fn script_reference_scan(evs: Seq<EventView>, pos: int) -> (ScriptReferenceFields, int) {
    element_fold(evs, pos, 1, (None, None), script_reference_steps())
}

/// `"<script>" from file "<data source>"`, leaving out what is missing; nothing when both are.
pub open spec fn script_reference_display(fields: ScriptReferenceFields) -> Option<Seq<char>> {
    let (data_source, script) = fields;
    match (script, data_source) {
        (Some(s), Some(d)) => Some("\""@ + s + "\""@ + " "@ + "from file \""@ + d + "\""@),
        (Some(s), None) => Some("\""@ + s + "\""@),
        (None, Some(d)) => Some("from file \""@ + d + "\""@),
        (None, None) => None,
    }
}

impl ScriptReference {
    /// The names, as mathematical values.
    pub open spec fn fields(&self) -> ScriptReferenceFields {
        (self.data_source_name.deep_view(), self.script_name.deep_view())
    }

    /// Reads a script reference parameter whose start tag was the last event read.
    pub fn from_xml(reader: &mut XmlReader, _e: &XmlEvent) -> (item: ScriptReference)
        ensures
            final(reader).events == old(reader).events,
            (item.fields(), final(reader).pos as int) == script_reference_scan(old(reader).evs(), old(reader).pos as int),
    {
        let ghost evs = reader.evs();
        let ghost start = reader.pos as int;
        let mut depth: u128 = 1;
        let mut item = ScriptReference { data_source_name: None, script_name: None };
        loop
            invariant_except_break
                1 <= depth <= reader.pos + 1,
                element_fold(evs, reader.pos as int, depth as int, item.fields(), script_reference_steps())
                    == script_reference_scan(evs, start),
            invariant
                reader.events == old(reader).events,
                evs == reader.evs(),
            ensures
                (item.fields(), reader.pos as int) == script_reference_scan(evs, start),
            decreases evs.len() - reader.pos,
        {
            match reader.read_event() {
                None => break,
                Some(XmlEvent::Start { name, attributes }) => {
                    depth = depth + 1;
                    if str_eq(name.as_str(), "DataSourceReference") {
                        item.data_source_name = parse_unescaped_attribute(attributes, "name");
                    } else if str_eq(name.as_str(), "ScriptReference") {
                        item.script_name = parse_unescaped_attribute(attributes, "name");
                    }
                },
                Some(XmlEvent::End { .. }) => {
                    depth = depth - 1;
                    if depth == 0 {
                        break;
                    }
                },
                Some(_) => {},
            }
        }
        item
    }

    /// The quoted script name, then `from file` and the quoted data source name.
    pub fn display(self) -> (res: Option<String>)
        ensures
            res.deep_view() == script_reference_display(self.fields()),
    {
        match (self.script_name, self.data_source_name) {
            (Some(s), Some(d)) => {
                let mut out = concat3("\"", s.as_str(), "\"");
                out.append(" ");
                out.append("from file \"");
                out.append(d.as_str());
                out.append("\"");
                Some(out)
            },
            (Some(s), None) => Some(concat3("\"", s.as_str(), "\"")),
            (None, Some(d)) => Some(concat3("from file \"", d.as_str(), "\"")),
            (None, None) => None,
        }
    }
}

} // verus!
