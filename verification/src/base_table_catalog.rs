//! The base table catalog: the id of each base table, by the table's name.
use vstd::prelude::*;

use crate::catalog::{keys_unique, latest, lookup, store_entry};
use crate::script_sanitizer::or_keep;
use crate::text::str_eq;
use crate::xml::{get_last_attribute, last_attribute, EventView, XmlEvent, XmlReader};

verus! {

/// Reads the rest of the catalog from `pos` on, with `depth` elements open, up to its end tag or
/// the first malformed piece: each `<BaseTable>` at depth 2 adds its name and id (its last `name`
/// and `id` attributes, empty where there is none) to `writes`. The writes in order, and the
/// position where reading stopped.
pub open spec fn base_table_scan(evs: Seq<EventView>, pos: int, depth: int, writes: Seq<(Seq<char>, Seq<char>)>) -> (Seq<(Seq<char>, Seq<char>)>, int)
    decreases evs.len() - pos,
{
    if pos < 0 || pos >= evs.len() {
        (writes, pos)
    } else {
        match evs[pos] {
            EventView::Malformed => (writes, pos + 1),
            EventView::Start(name, attributes) => {
                let d = depth + 1;
                if d == 2 && name == "BaseTable"@ {
                    let table = (
                        or_keep(last_attribute(attributes, "name"@), Seq::empty()),
                        or_keep(last_attribute(attributes, "id"@), Seq::empty()),
                    );
                    base_table_scan(evs, pos + 1, d, writes.push(table))
                } else {
                    base_table_scan(evs, pos + 1, d, writes)
                }
            },
            EventView::End(_) => if depth - 1 == 0 {
                (writes, pos + 1)
            } else {
                base_table_scan(evs, pos + 1, depth - 1, writes)
            },
            _ => base_table_scan(evs, pos + 1, depth, writes),
        }
    }
}

/// Reads the base table catalog whose start tag was the last event read: the id of each base
/// table by its name, where a later table of the same name replaces an earlier one.
pub fn parse_base_table_catalog(reader: &mut XmlReader, _start: &XmlEvent) -> (res: Vec<(String, String)>)
    ensures
        final(reader).events == old(reader).events,
        final(reader).pos == base_table_scan(old(reader).evs(), old(reader).pos as int, 1, Seq::empty()).1,
        keys_unique(res.deep_view()),
        forall|name: Seq<char>| #[trigger] lookup(res.deep_view(), name)
            == latest(base_table_scan(old(reader).evs(), old(reader).pos as int, 1, Seq::empty()).0, name),
{
    let ghost evs = reader.evs();
    let ghost start = reader.pos as int;
    let ghost mut writes: Seq<(Seq<char>, Seq<char>)> = Seq::empty();
    let mut depth: i128 = 1;
    let mut tables: Vec<(String, String)> = Vec::new();
    assert(tables.deep_view() =~= Seq::<(Seq<char>, Seq<char>)>::empty());
    loop
        invariant_except_break
            -(reader.pos as int) <= depth <= reader.pos + 1,
            base_table_scan(evs, reader.pos as int, depth as int, writes) == base_table_scan(evs, start, 1, Seq::empty()),
        invariant
            reader.events == old(reader).events,
            evs == reader.evs(),
            start == old(reader).pos,
            keys_unique(tables.deep_view()),
            forall|name: Seq<char>| #[trigger] lookup(tables.deep_view(), name) == latest(writes, name),
        ensures
            base_table_scan(evs, start, 1, Seq::empty()) == (writes, reader.pos as int),
        decreases evs.len() - reader.pos,
    {
        match reader.read_event() {
            None => break,
            Some(event) => match event {
                XmlEvent::Malformed => break,
                XmlEvent::Start { name, attributes } => {
                    depth = depth + 1;
                    if depth == 2 && str_eq(name.as_str(), "BaseTable") {
                        let table_name = match get_last_attribute(attributes, "name") {
                            Some(n) => n,
                            None => String::new(),
                        };
                        let id = match get_last_attribute(attributes, "id") {
                            Some(i) => i,
                            None => String::new(),
                        };
                        let ghost write = (table_name@, id@);
                        let ghost before = writes;
                        store_entry(&mut tables, table_name, id);
                        proof {
                            writes = writes.push(write);
                            assert forall|k: Seq<char>| #[trigger] lookup(tables.deep_view(), k) == latest(writes, k) by {
                                assert(writes.drop_last() =~= before);
                            }
                        }
                    }
                },
                XmlEvent::End { .. } => {
                    depth = depth - 1;
                    if depth == 0 {
                        break;
                    }
                },
                _ => {},
            },
        }
    }
    tables
}

} // verus!
