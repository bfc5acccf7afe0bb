//! The privilege set catalog: each privilege set's id, name and the events that make it up.
use vstd::prelude::*;

use crate::script_sanitizer::or_keep;
use crate::text::str_eq;
use crate::xml::{local_name, local_part, clone_event, element_end, get_last_attribute, last_attribute, lemma_element_fold_bounds, no_steps, skip_rest_of_element, EventView, XmlEvent, XmlReader};

verus! {

/// A privilege set of the catalog: its id, its name and its events, from its start tag to its
/// end tag.
#[derive(Debug)]
pub struct PrivilegeSet {
    pub id: String,
    pub name: String,
    pub content: Vec<XmlEvent>,
}

impl PrivilegeSet {
    /// Forgets the id, the name and the events.
    pub fn clear(&mut self)
        ensures
            final(self).id@ == Seq::<char>::empty(),
            final(self).name@ == Seq::<char>::empty(),
            final(self).content@ == Seq::<XmlEvent>::empty(),
    {
        self.id = String::new();
        self.name = String::new();
        self.content = Vec::new();
    }
}

impl Default for PrivilegeSet {
    fn default() -> (res: Self)
        ensures
            res.id@ == Seq::<char>::empty(),
            res.name@ == Seq::<char>::empty(),
            res.content@ == Seq::<XmlEvent>::empty(),
    {
        PrivilegeSet { id: String::new(), name: String::new(), content: Vec::new() }
    }
}

/// A privilege set as mathematical values: id, name and events.
pub type PrivilegeSetFields = (Seq<char>, Seq<char>, Seq<EventView>);

/// What has been read of the catalog: the depth, the privilege set being read and the privilege
/// sets so far.
pub struct PrivilegeScan {
    pub depth: int,
    pub id: Seq<char>,
    pub name: Seq<char>,
    pub content: Seq<EventView>,
    pub items: Seq<PrivilegeSetFields>,
}

/// Nothing read of the catalog yet.
pub open spec fn privilege_start() -> PrivilegeScan {
    PrivilegeScan { depth: 1, id: Seq::empty(), name: Seq::empty(), content: Seq::empty(), items: Seq::empty() }
}

/// `st` with `event` added to the privilege set being read, if it has an id.
pub open spec fn keep_event(st: PrivilegeScan, event: EventView) -> PrivilegeScan {
    if st.id.len() == 0 {
        st
    } else {
        PrivilegeScan { content: st.content.push(event), ..st }
    }
}

/// Reads the rest of the catalog from `pos` on, up to its end tag or the first malformed piece.
/// An element at depth 3 other than `<PrivilegeSet>` is skipped whole; a `<PrivilegeSet>` there
/// starts a privilege set with the id and name of its last `id` and `name` attributes. While
/// the privilege set has an id, every start tag, end tag, text, CDATA and comment event is kept in it, and
/// the end of the `<PrivilegeSet>` (back at depth 2) adds it to the list.
pub open spec fn privilege_set_scan(evs: Seq<EventView>, pos: int, st: PrivilegeScan) -> (PrivilegeScan, int)
    decreases evs.len() - pos,
{
    if pos < 0 || pos >= evs.len() {
        (st, pos)
    } else {
        match evs[pos] {
            EventView::Malformed => (st, pos + 1),
            EventView::Start(name, attributes) => {
                let d = st.depth + 1;
                if d == 3 && name != "PrivilegeSet"@ {
                    let end = element_end(evs, pos + 1, 1);
                    proof {
                        lemma_element_fold_bounds(evs, pos + 1, 1, (), no_steps());
                    }
                    privilege_set_scan(evs, end, st)
                } else if d == 3 {
                    let opened = PrivilegeScan {
                        depth: d,
                        id: or_keep(last_attribute(attributes, "id"@), Seq::empty()),
                        name: or_keep(last_attribute(attributes, "name"@), Seq::empty()),
                        content: Seq::empty(),
                        ..st
                    };
                    privilege_set_scan(evs, pos + 1, keep_event(opened, evs[pos]))
                } else {
                    privilege_set_scan(evs, pos + 1, keep_event(PrivilegeScan { depth: d, ..st }, evs[pos]))
                }
            },
            EventView::End(name) => {
                let d = st.depth - 1;
                if d == 0 {
                    (PrivilegeScan { depth: d, ..st }, pos + 1)
                } else if st.id.len() == 0 {
                    privilege_set_scan(evs, pos + 1, PrivilegeScan { depth: d, ..st })
                } else if d == 2 && local_part(name) == "PrivilegeSet"@ {
                    privilege_set_scan(evs, pos + 1, PrivilegeScan {
                        depth: d,
                        id: Seq::empty(),
                        name: Seq::empty(),
                        content: Seq::empty(),
                        items: st.items.push((st.id, st.name, st.content.push(evs[pos]))),
                    })
                } else {
                    privilege_set_scan(evs, pos + 1, PrivilegeScan { depth: d, content: st.content.push(evs[pos]), ..st })
                }
            },
            EventView::Text(_) => privilege_set_scan(evs, pos + 1, keep_event(st, evs[pos])),
            EventView::CData(_) => privilege_set_scan(evs, pos + 1, keep_event(st, evs[pos])),
            EventView::Comment(_) => privilege_set_scan(evs, pos + 1, keep_event(st, evs[pos])),
            _ => privilege_set_scan(evs, pos + 1, st),
        }
    }
}

/// The id, name and events of each privilege set, as mathematical values.
pub open spec fn privilege_set_views(items: Seq<PrivilegeSet>) -> Seq<PrivilegeSetFields> {
    items.map_values(|p: PrivilegeSet| (p.id@, p.name@, p.content.deep_view()))
}

/// Reads the privilege set catalog whose start tag was the last event read: its privilege sets,
/// in order, each with its events.
pub fn xml_explode_privilege_set_catalog(reader: &mut XmlReader, _start: &XmlEvent) -> (res: Vec<PrivilegeSet>)
    ensures
        final(reader).events == old(reader).events,
        privilege_set_views(res@) == privilege_set_scan(old(reader).evs(), old(reader).pos as int, privilege_start()).0.items,
        final(reader).pos == privilege_set_scan(old(reader).evs(), old(reader).pos as int, privilege_start()).1,
{
    let ghost evs = reader.evs();
    let ghost start = reader.pos as int;
    let mut depth: i128 = 1;
    let mut current = PrivilegeSet::default();
    let mut items: Vec<PrivilegeSet> = Vec::new();
    assert(privilege_set_views(items@) =~= Seq::<PrivilegeSetFields>::empty());
    assert(current.content.deep_view() =~= Seq::<EventView>::empty());
    loop
        invariant_except_break
            -(reader.pos as int) <= depth <= reader.pos + 1,
            privilege_set_scan(evs, reader.pos as int, PrivilegeScan {
                depth: depth as int,
                id: current.id@,
                name: current.name@,
                content: current.content.deep_view(),
                items: privilege_set_views(items@),
            }) == privilege_set_scan(evs, start, privilege_start()),
        invariant
            reader.events == old(reader).events,
            evs == reader.evs(),
            start == old(reader).pos,
        ensures
            privilege_set_scan(evs, start, privilege_start()).0.items == privilege_set_views(items@),
            privilege_set_scan(evs, start, privilege_start()).1 == reader.pos,
        decreases evs.len() - reader.pos,
    {
        let ghost pos = reader.pos as int;
        match reader.read_event() {
            None => break,
            Some(event) => match event {
                XmlEvent::Malformed => break,
                XmlEvent::Start { name, attributes } => {
                    if depth + 1 == 3 && !str_eq(name.as_str(), "PrivilegeSet") {
                        proof {
                            lemma_element_fold_bounds(evs, pos + 1, 1, (), no_steps());
                        }
                        skip_rest_of_element(reader);
                    } else {
                        depth = depth + 1;
                        if depth == 3 {
                            current.clear();
                            assert(current.content.deep_view() =~= Seq::<EventView>::empty());
                            if let Some(i) = get_last_attribute(attributes, "id") {
                                current.id = i;
                            }
                            if let Some(n) = get_last_attribute(attributes, "name") {
                                current.name = n;
                            }
                        }
                        if current.id.as_str().unicode_len() > 0 {
                            let ghost before = current.content.deep_view();
                            current.content.push(clone_event(event));
                            assert(current.content.deep_view() =~= before.push(evs[pos]));
                        }
                    }
                },
                XmlEvent::End { name } => {
                    depth = depth - 1;
                    if depth == 0 {
                        break;
                    }
                    if current.id.as_str().unicode_len() > 0 {
                        let ghost before = current.content.deep_view();
                        current.content.push(clone_event(event));
                        assert(current.content.deep_view() =~= before.push(evs[pos]));
                        if depth == 2 && str_eq(local_name(name.as_str()).as_str(), "PrivilegeSet") {
                            let ghost list = privilege_set_views(items@);
                            let ghost done = (current.id@, current.name@, current.content.deep_view());
                            let mut finished = PrivilegeSet::default();
                            std::mem::swap(&mut finished, &mut current);
                            items.push(finished);
                            assert(privilege_set_views(items@) =~= list.push(done));
                            assert(current.content.deep_view() =~= Seq::<EventView>::empty());
                        }
                    }
                },
                XmlEvent::Text { .. } | XmlEvent::CData { .. } | XmlEvent::Comment { .. } => {
                    if current.id.as_str().unicode_len() > 0 {
                        let ghost before = current.content.deep_view();
                        current.content.push(clone_event(event));
                        assert(current.content.deep_view() =~= before.push(evs[pos]));
                    }
                },
                _ => {},
            },
        }
    }
    items
}

} // verus!
