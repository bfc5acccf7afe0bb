//! The custom function catalog: each custom function's id, name and formula text.
use vstd::prelude::*;

use crate::script_sanitizer::or_keep;
use crate::text::str_eq;
use crate::xml::{local_name, local_part, get_last_attribute, last_attribute, EventView, XmlEvent, XmlReader};

verus! {

/// A custom function of the catalog: its id, name and formula text.
#[derive(Debug)]
pub struct CustomFunctionInfo {
    pub id: String,
    pub name: String,
    pub content: String,
}

/// The id, name and text of a custom function.
pub type CustomFunctionFields = (Seq<char>, Seq<char>, Seq<char>);

/// Nothing read of a custom function.
pub open spec fn no_custom_function() -> CustomFunctionFields {
    (Seq::empty(), Seq::empty(), Seq::empty())
}

/// Reads the rest of the catalog from `pos` on, with `depth` elements open, up to its end tag or
/// the first malformed piece: each element at depth 3 starts a custom function, the
/// `<CustomFunctionReference>` at depth 4 gives its id and name, the CDATA sections below depth 2
/// make its text, and the end of a `<CustomFunctionCalc>` at depth 2 adds it to the list.
/// The custom functions and the position where reading stopped.
pub open spec fn cf_catalog_scan(
    evs: Seq<EventView>,
    pos: int,
    depth: int,
    current: CustomFunctionFields,
    items: Seq<CustomFunctionFields>,
) -> (Seq<CustomFunctionFields>, int)
    decreases evs.len() - pos,
{
    if pos < 0 || pos >= evs.len() {
        (items, pos)
    } else {
        match evs[pos] {
            EventView::Malformed => (items, pos + 1),
            EventView::Start(name, attributes) => {
                let d = depth + 1;
                if d < 3 {
                    cf_catalog_scan(evs, pos + 1, d, current, items)
                } else if d == 3 {
                    cf_catalog_scan(evs, pos + 1, d, no_custom_function(), items)
                } else if d == 4 && name == "CustomFunctionReference"@ {
                    cf_catalog_scan(evs, pos + 1, d, (
                        or_keep(last_attribute(attributes, "id"@), current.0),
                        or_keep(last_attribute(attributes, "name"@), current.1),
                        current.2,
                    ), items)
                } else {
                    cf_catalog_scan(evs, pos + 1, d, current, items)
                }
            },
            EventView::End(name) => {
                let d = depth - 1;
                if d == 0 {
                    (items, pos + 1)
                } else if d == 2 && local_part(name) == "CustomFunctionCalc"@ {
                    cf_catalog_scan(evs, pos + 1, d, no_custom_function(), items.push(current))
                } else {
                    cf_catalog_scan(evs, pos + 1, d, current, items)
                }
            },
            EventView::CData(content) => if depth < 3 {
                cf_catalog_scan(evs, pos + 1, depth, current, items)
            } else {
                cf_catalog_scan(evs, pos + 1, depth, (current.0, current.1, current.2 + content), items)
            },
            _ => cf_catalog_scan(evs, pos + 1, depth, current, items),
        }
    }
}

/// The id, name and text of each custom function, as mathematical values.
pub open spec fn custom_function_views(items: Seq<CustomFunctionInfo>) -> Seq<CustomFunctionFields> {
    items.map_values(|c: CustomFunctionInfo| (c.id@, c.name@, c.content@))
}

/// Reads the custom function catalog whose start tag was the last event read: its custom
/// functions, in order.
pub fn xml_explode_custom_function_catalog(reader: &mut XmlReader, _start: &XmlEvent) -> (items: Vec<CustomFunctionInfo>)
    ensures
        final(reader).events == old(reader).events,
        (custom_function_views(items@), final(reader).pos as int)
            == cf_catalog_scan(old(reader).evs(), old(reader).pos as int, 1, no_custom_function(), Seq::empty()),
{
    let ghost evs = reader.evs();
    let ghost start = reader.pos as int;
    let mut depth: i128 = 1;
    let mut id = String::new();
    let mut name = String::new();
    let mut content = String::new();
    let mut items: Vec<CustomFunctionInfo> = Vec::new();
    assert(custom_function_views(items@) =~= Seq::<CustomFunctionFields>::empty());
    loop
        invariant_except_break
            -(reader.pos as int) <= depth <= reader.pos + 1,
            cf_catalog_scan(evs, reader.pos as int, depth as int, (id@, name@, content@), custom_function_views(items@))
                == cf_catalog_scan(evs, start, 1, no_custom_function(), Seq::empty()),
        invariant
            reader.events == old(reader).events,
            evs == reader.evs(),
        ensures
            (custom_function_views(items@), reader.pos as int) == cf_catalog_scan(evs, start, 1, no_custom_function(), Seq::empty()),
        decreases evs.len() - reader.pos,
    {
        match reader.read_event() {
            None => break,
            Some(event) => match event {
                XmlEvent::Malformed => break,
                XmlEvent::Start { name: tag, attributes } => {
                    depth = depth + 1;
                    if depth == 3 {
                        id = String::new();
                        name = String::new();
                        content = String::new();
                    } else if depth == 4 && str_eq(tag.as_str(), "CustomFunctionReference") {
                        if let Some(v) = get_last_attribute(attributes, "id") {
                            id = v;
                        }
                        if let Some(v) = get_last_attribute(attributes, "name") {
                            name = v;
                        }
                    }
                },
                XmlEvent::End { name: tag } => {
                    depth = depth - 1;
                    if depth == 0 {
                        break;
                    }
                    if depth == 2 && str_eq(local_name(tag.as_str()).as_str(), "CustomFunctionCalc") {
                        let ghost before = custom_function_views(items@);
                        let ghost done = (id@, name@, content@);
                        items.push(CustomFunctionInfo { id, name, content });
                        assert(custom_function_views(items@) =~= before.push(done));
                        id = String::new();
                        name = String::new();
                        content = String::new();
                    }
                },
                XmlEvent::CData { content: text } => {
                    if depth >= 3 {
                        content.append(text.as_str());
                    }
                },
                _ => {},
            },
        }
    }
    items
}

} // verus!
