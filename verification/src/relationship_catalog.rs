//! The relationship catalog: each relationship's id, its two table occurrences and its events.
use vstd::prelude::*;

use crate::text::{concat3, str_eq};
use crate::xml::{lemma_local_part_plain, local_name, local_part, clone_event, element_end, first_attribute, get_attribute, lemma_element_fold_bounds, no_steps, skip_rest_of_element, EventView, XmlEvent, XmlReader};

verus! {

/// A relationship: its id, the table occurrences on its left and right, and its events from
/// its start tag to its end tag.
#[derive(Debug)]
pub struct RelationshipInfo {
    pub id: String,
    pub left: String,
    pub right: String,
    pub content: Vec<XmlEvent>,
}

/// A relationship as mathematical values: id, left, right and events.
pub type RelationshipFields = (Seq<char>, Seq<char>, Seq<char>, Seq<EventView>);

/// What has been read of the catalog: the depth, whether the reader is inside the left or the
/// right table, the relationship being read (id, left, right), its events so far, and the
/// relationships so far.
pub struct RelationshipScan {
    pub depth: int,
    pub in_left: bool,
    pub in_right: bool,
    pub current: (Seq<char>, Seq<char>, Seq<char>),
    pub content: Seq<EventView>,
    pub items: Seq<RelationshipFields>,
}

/// The name of a table tag, or empty.
pub open spec fn name_or_empty(attributes: Seq<(Seq<char>, Seq<char>)>) -> Seq<char> {
    match first_attribute(attributes, "name"@) {
        Some(n) => n,
        None => Seq::empty(),
    }
}

/// Reads the rest of the catalog from `pos` on, up to its end tag or the first malformed piece.
/// At depth 2 a `<UUID>` is skipped whole and any other element starts a relationship (a
/// `<Relationship>` by its `id`) whose events start with its start tag; at depth 3
/// `<LeftTable>` and `<RightTable>` are entered and give a first name; at depth 4 a
/// `<TableOccurrenceReference>` inside one of them gives its name. Every start tag, end tag and
/// CDATA event, and every text and comment below depth 1, is added to the relationship's
/// events; the end of a `<Relationship>` back at depth 1 adds it to the list. `None` where a
/// relationship has no id or such a reference no name.
pub open spec fn relationship_scan(evs: Seq<EventView>, pos: int, st: RelationshipScan) -> Option<(RelationshipScan, int)>
    decreases evs.len() - pos,
{
    if pos < 0 || pos >= evs.len() {
        Some((st, pos))
    } else {
        let (id, left, right) = st.current;
        let kept = st.content.push(evs[pos]);
        match evs[pos] {
            EventView::Malformed => Some((st, pos + 1)),
            EventView::Start(name, attributes) => {
                let d = st.depth + 1;
                if d == 2 {
                    if name == "UUID"@ {
                        let end = element_end(evs, pos + 1, 1);
                        proof {
                            lemma_element_fold_bounds(evs, pos + 1, 1, (), no_steps());
                        }
                        relationship_scan(evs, end, st)
                    } else if name == "Relationship"@ {
                        match first_attribute(attributes, "id"@) {
                            Some(i) => relationship_scan(evs, pos + 1, RelationshipScan {
                                depth: d,
                                current: (i, Seq::empty(), Seq::empty()),
                                content: seq![evs[pos]],
                                ..st
                            }),
                            None => None,
                        }
                    } else {
                        relationship_scan(evs, pos + 1, RelationshipScan {
                            depth: d,
                            current: (Seq::empty(), Seq::empty(), Seq::empty()),
                            content: seq![evs[pos]],
                            ..st
                        })
                    }
                } else if d == 3 && name == "LeftTable"@ {
                    relationship_scan(evs, pos + 1, RelationshipScan { depth: d, in_left: true, current: (id, name_or_empty(attributes), right), content: kept, ..st })
                } else if d == 3 && name == "RightTable"@ {
                    relationship_scan(evs, pos + 1, RelationshipScan { depth: d, in_right: true, current: (id, left, name_or_empty(attributes)), content: kept, ..st })
                } else if d == 4 && name == "TableOccurrenceReference"@ && (st.in_left || st.in_right) {
                    match first_attribute(attributes, "name"@) {
                        Some(n) => relationship_scan(evs, pos + 1, RelationshipScan {
                            depth: d,
                            current: if st.in_left { (id, n, right) } else { (id, left, n) },
                            content: kept,
                            ..st
                        }),
                        None => None,
                    }
                } else {
                    relationship_scan(evs, pos + 1, RelationshipScan { depth: d, content: kept, ..st })
                }
            },
            EventView::End(name) => {
                let d = st.depth - 1;
                if d == 0 {
                    Some((RelationshipScan { depth: d, ..st }, pos + 1))
                } else if d == 1 && local_part(name) == "Relationship"@ {
                    relationship_scan(evs, pos + 1, RelationshipScan {
                        depth: d,
                        current: (Seq::empty(), Seq::empty(), Seq::empty()),
                        content: Seq::empty(),
                        items: st.items.push((id, left, right, kept)),
                        ..st
                    })
                } else if d == 2 && name == "LeftTable"@ {
                    relationship_scan(evs, pos + 1, RelationshipScan { depth: d, in_left: false, content: kept, ..st })
                } else if d == 2 && name == "RightTable"@ {
                    relationship_scan(evs, pos + 1, RelationshipScan { depth: d, in_right: false, content: kept, ..st })
                } else {
                    relationship_scan(evs, pos + 1, RelationshipScan { depth: d, content: kept, ..st })
                }
            },
            EventView::CData(_) => relationship_scan(evs, pos + 1, RelationshipScan { content: kept, ..st }),
            EventView::Text(_) => if st.depth < 2 {
                relationship_scan(evs, pos + 1, st)
            } else {
                relationship_scan(evs, pos + 1, RelationshipScan { content: kept, ..st })
            },
            EventView::Comment(_) => if st.depth < 2 {
                relationship_scan(evs, pos + 1, st)
            } else {
                relationship_scan(evs, pos + 1, RelationshipScan { content: kept, ..st })
            },
            _ => relationship_scan(evs, pos + 1, st),
        }
    }
}

/// A relationship is read with the table occurrence referenced inside `<LeftTable>` as its
/// left side and the one referenced inside `<RightTable>` as its right side: reading a
/// `<Relationship>` with id `id` whose left table refers to `left` and whose right table refers
/// to `right`, at the top of the catalog, adds `(id, left, right)` with the relationship's
/// events to the list and leaves nothing else behind.
pub proof fn law_relationship_sides(
    evs: Seq<EventView>,
    pos: int,
    st: RelationshipScan,
    id: Seq<char>,
    left: Seq<char>,
    right: Seq<char>,
    relationship: Seq<(Seq<char>, Seq<char>)>,
    left_table: Seq<(Seq<char>, Seq<char>)>,
    left_reference: Seq<(Seq<char>, Seq<char>)>,
    right_table: Seq<(Seq<char>, Seq<char>)>,
    right_reference: Seq<(Seq<char>, Seq<char>)>,
)
    requires
        0 <= pos,
        pos + 10 <= evs.len(),
        st.depth == 1,
        !st.in_left,
        !st.in_right,
        first_attribute(relationship, "id"@) == Some(id),
        first_attribute(left_reference, "name"@) == Some(left),
        first_attribute(right_reference, "name"@) == Some(right),
        evs[pos] == EventView::Start("Relationship"@, relationship),
        evs[pos + 1] == EventView::Start("LeftTable"@, left_table),
        evs[pos + 2] == EventView::Start("TableOccurrenceReference"@, left_reference),
        evs[pos + 3] == EventView::End("TableOccurrenceReference"@),
        evs[pos + 4] == EventView::End("LeftTable"@),
        evs[pos + 5] == EventView::Start("RightTable"@, right_table),
        evs[pos + 6] == EventView::Start("TableOccurrenceReference"@, right_reference),
        evs[pos + 7] == EventView::End("TableOccurrenceReference"@),
        evs[pos + 8] == EventView::End("RightTable"@),
        evs[pos + 9] == EventView::End("Relationship"@),
    ensures
        relationship_scan(evs, pos, st) == relationship_scan(evs, pos + 10, RelationshipScan {
            depth: 1,
            in_left: false,
            in_right: false,
            current: (Seq::empty(), Seq::empty(), Seq::empty()),
            content: Seq::empty(),
            items: st.items.push((id, left, right, evs.subrange(pos, pos + 10))),
        }),
{
    reveal_strlit("Relationship");
    reveal_strlit("UUID");
    reveal_strlit("LeftTable");
    reveal_strlit("RightTable");
    reveal_strlit("TableOccurrenceReference");
    assert("Relationship"@.len() == 12 && "UUID"@.len() == 4 && "LeftTable"@.len() == 9);
    assert("RightTable"@.len() == 10 && "TableOccurrenceReference"@.len() == 24);
    assert("LeftTable"@ != "RightTable"@);
    assert(local_part("Relationship"@) == "Relationship"@) by {
        lemma_local_part_plain("Relationship"@);
    }
    let e = |k: int| evs[pos + k];
    let s1 = RelationshipScan { depth: 2, current: (id, Seq::empty(), Seq::empty()), content: seq![e(0)], ..st };
    let s2 = RelationshipScan { depth: 3, in_left: true, current: (id, name_or_empty(left_table), Seq::empty()), content: s1.content.push(e(1)), ..s1 };
    let s3 = RelationshipScan { depth: 4, current: (id, left, Seq::empty()), content: s2.content.push(e(2)), ..s2 };
    let s4 = RelationshipScan { depth: 3, content: s3.content.push(e(3)), ..s3 };
    let s5 = RelationshipScan { depth: 2, in_left: false, content: s4.content.push(e(4)), ..s4 };
    let s6 = RelationshipScan { depth: 3, in_right: true, current: (id, left, name_or_empty(right_table)), content: s5.content.push(e(5)), ..s5 };
    let s7 = RelationshipScan { depth: 4, current: (id, left, right), content: s6.content.push(e(6)), ..s6 };
    let s8 = RelationshipScan { depth: 3, content: s7.content.push(e(7)), ..s7 };
    let s9 = RelationshipScan { depth: 2, in_right: false, content: s8.content.push(e(8)), ..s8 };
    assert(s9.content.push(e(9)) =~= evs.subrange(pos, pos + 10));
    assert(relationship_scan(evs, pos + 9, s9) == relationship_scan(evs, pos + 10, RelationshipScan {
        depth: 1,
        in_left: false,
        in_right: false,
        current: (Seq::empty(), Seq::empty(), Seq::empty()),
        content: Seq::empty(),
        items: st.items.push((id, left, right, evs.subrange(pos, pos + 10))),
    }));
    assert(relationship_scan(evs, pos + 8, s8) == relationship_scan(evs, pos + 9, s9));
    assert(relationship_scan(evs, pos + 7, s7) == relationship_scan(evs, pos + 8, s8));
    assert(relationship_scan(evs, pos + 6, s6) == relationship_scan(evs, pos + 7, s7));
    assert(relationship_scan(evs, pos + 5, s5) == relationship_scan(evs, pos + 6, s6));
    assert(relationship_scan(evs, pos + 4, s4) == relationship_scan(evs, pos + 5, s5));
    assert(relationship_scan(evs, pos + 3, s3) == relationship_scan(evs, pos + 4, s4));
    assert(relationship_scan(evs, pos + 2, s2) == relationship_scan(evs, pos + 3, s3));
    assert(relationship_scan(evs, pos + 1, s1) == relationship_scan(evs, pos + 2, s2));
    assert(relationship_scan(evs, pos, st) == relationship_scan(evs, pos + 1, s1));
}

/// Nothing read of the catalog yet.
pub open spec fn relationship_start() -> RelationshipScan {
    RelationshipScan {
        depth: 1,
        in_left: false,
        in_right: false,
        current: (Seq::empty(), Seq::empty(), Seq::empty()),
        content: Seq::empty(),
        items: Seq::empty(),
    }
}

/// The id, tables and events of each relationship, as mathematical values.
pub open spec fn relationship_views(items: Seq<RelationshipInfo>) -> Seq<RelationshipFields> {
    items.map_values(|r: RelationshipInfo| (r.id@, r.left@, r.right@, r.content.deep_view()))
}

/// Adds a copy of `event` to `content`.
fn keep(content: &mut Vec<XmlEvent>, event: &XmlEvent)
    ensures
        final(content).deep_view() == old(content).deep_view().push(event@),
{
    let ghost before = content.deep_view();
    content.push(clone_event(event));
    assert(content.deep_view() =~= before.push(event@));
}

/// Reads the relationship catalog whose start tag was the last event read: its relationships,
/// in order, each with its events; `None` where a relationship has no id or a table occurrence
/// reference no name.
pub fn xml_explode_relationship_catalog(reader: &mut XmlReader, _start: &XmlEvent) -> (res: Option<Vec<RelationshipInfo>>)
    ensures
        final(reader).events == old(reader).events,
        match relationship_scan(old(reader).evs(), old(reader).pos as int, relationship_start()) {
            Some((st, end)) => res matches Some(items) && relationship_views(items@) == st.items && final(reader).pos == end,
            None => res is None,
        },
{
    let ghost evs = reader.evs();
    let ghost start = reader.pos as int;
    let mut depth: i128 = 1;
    let mut in_left = false;
    let mut in_right = false;
    let mut id = String::new();
    let mut left = String::new();
    let mut right = String::new();
    let mut content: Vec<XmlEvent> = Vec::new();
    let mut items: Vec<RelationshipInfo> = Vec::new();
    assert(relationship_views(items@) =~= Seq::<RelationshipFields>::empty());
    assert(content.deep_view() =~= Seq::<EventView>::empty());
    loop
        invariant_except_break
            -(reader.pos as int) <= depth <= reader.pos + 1,
            relationship_scan(evs, reader.pos as int, RelationshipScan {
                depth: depth as int,
                in_left,
                in_right,
                current: (id@, left@, right@),
                content: content.deep_view(),
                items: relationship_views(items@),
            }) == relationship_scan(evs, start, relationship_start()),
        invariant
            reader.events == old(reader).events,
            evs == reader.evs(),
            start == old(reader).pos,
        ensures
            relationship_scan(evs, start, relationship_start()) matches Some((st, end))
                && st.items == relationship_views(items@) && end == reader.pos,
        decreases evs.len() - reader.pos,
    {
        let ghost pos = reader.pos as int;
        match reader.read_event() {
            None => break,
            Some(event) => match event {
                XmlEvent::Malformed => break,
                XmlEvent::Start { name, attributes } => {
                    if depth + 1 == 2 {
                        if str_eq(name.as_str(), "UUID") {
                            proof {
                                lemma_element_fold_bounds(evs, pos + 1, 1, (), no_steps());
                            }
                            skip_rest_of_element(reader);
                        } else {
                            if str_eq(name.as_str(), "Relationship") {
                                match get_attribute(attributes, "id") {
                                    Some(i) => {
                                        id = i;
                                    },
                                    None => {
                                        return None;
                                    },
                                }
                            } else {
                                id = String::new();
                            }
                            left = String::new();
                            right = String::new();
                            content = Vec::new();
                            assert(content.deep_view() =~= Seq::<EventView>::empty());
                            keep(&mut content, event);
                            assert(content.deep_view() =~= seq![evs[pos]]);
                            depth = depth + 1;
                        }
                    } else if depth + 1 == 3 && str_eq(name.as_str(), "LeftTable") {
                        in_left = true;
                        left = match get_attribute(attributes, "name") {
                            Some(n) => n,
                            None => String::new(),
                        };
                        keep(&mut content, event);
                        depth = depth + 1;
                    } else if depth + 1 == 3 && str_eq(name.as_str(), "RightTable") {
                        in_right = true;
                        right = match get_attribute(attributes, "name") {
                            Some(n) => n,
                            None => String::new(),
                        };
                        keep(&mut content, event);
                        depth = depth + 1;
                    } else if depth + 1 == 4 && str_eq(name.as_str(), "TableOccurrenceReference") && (in_left || in_right) {
                        match get_attribute(attributes, "name") {
                            Some(n) => {
                                if in_left {
                                    left = n;
                                } else {
                                    right = n;
                                }
                                keep(&mut content, event);
                                depth = depth + 1;
                            },
                            None => {
                                return None;
                            },
                        }
                    } else {
                        keep(&mut content, event);
                        depth = depth + 1;
                    }
                },
                XmlEvent::End { name } => {
                    depth = depth - 1;
                    if depth == 0 {
                        break;
                    }
                    keep(&mut content, event);
                    if depth == 1 && str_eq(local_name(name.as_str()).as_str(), "Relationship") {
                        let ghost before = relationship_views(items@);
                        let ghost done = (id@, left@, right@, content.deep_view());
                        let mut finished: Vec<XmlEvent> = Vec::new();
                        std::mem::swap(&mut finished, &mut content);
                        items.push(RelationshipInfo { id, left, right, content: finished });
                        assert(relationship_views(items@) =~= before.push(done));
                        assert(content.deep_view() =~= Seq::<EventView>::empty());
                        id = String::new();
                        left = String::new();
                        right = String::new();
                    } else if depth == 2 && str_eq(name.as_str(), "LeftTable") {
                        in_left = false;
                    } else if depth == 2 && str_eq(name.as_str(), "RightTable") {
                        in_right = false;
                    }
                },
                XmlEvent::CData { .. } => {
                    keep(&mut content, event);
                },
                XmlEvent::Text { .. } | XmlEvent::Comment { .. } => {
                    if depth >= 2 {
                        keep(&mut content, event);
                    }
                },
                _ => {},
            },
        }
    }
    Some(items)
}

/// The label of a relationship's file: `[left] - [right]`.
pub fn relationship_label(relationship: &RelationshipInfo) -> (res: String)
    ensures
        res@ == "["@ + relationship.left@ + "] - ["@ + relationship.right@ + "]"@,
{
    let mut out = concat3("[", relationship.left.as_str(), "] - [");
    out.append(relationship.right.as_str());
    out.append("]");
    out
}

} // verus!
