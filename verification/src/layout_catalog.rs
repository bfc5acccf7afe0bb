//! The layout catalog: each layout's id, name, folders and events.
use vstd::prelude::*;

use crate::catalog::FolderLevels;
use crate::text::str_eq;
use crate::xml::{lemma_local_part_plain, local_name, local_part, clone_attributes, clone_event, copy_events, element_end, lemma_element_fold_bounds, no_steps, skip_rest_of_element, EventView, XmlEvent, XmlReader};

verus! {

/// A layout of the catalog: its id, its name, its events and the folders (id and name) it
/// sits in.
#[derive(Debug)]
pub struct LayoutInfo {
    pub id: String,
    pub name: String,
    pub content: Vec<XmlEvent>,
    pub path: Vec<(String, String)>,
}

/// A layout as mathematical values: id, name, folders and events.
pub type LayoutFields = (Seq<char>, Seq<char>, FolderLevels, Seq<EventView>);

/// What has been read of the catalog: the depth, the id, name and events of the layout being
/// read, the current folders, and the layouts so far.
pub struct LayoutScan {
    pub depth: int,
    pub id: Seq<char>,
    pub name: Seq<char>,
    pub content: Seq<EventView>,
    pub path: FolderLevels,
    pub items: Seq<LayoutFields>,
}

/// Reads the attributes of a `<Layout>` from the `i`-th on, in order, with the reader at `pos`:
/// an `id` or a `name` is taken; an `isFolder` of `True` opens a folder named by the id and
/// name taken so far, one of `Marker` closes the innermost folder (if any), and each of these,
/// like any `isSeparatorItem`, skips the element the reader is in and lowers the depth. Once the
/// events run out nothing more is read.
pub open spec fn layout_attrs(evs: Seq<EventView>, pos: int, attributes: Seq<(Seq<char>, Seq<char>)>, i: int, st: LayoutScan) -> (LayoutScan, int)
    decreases attributes.len() - i,
{
    if i < 0 || i >= attributes.len() || pos < 0 || pos >= evs.len() {
        (st, pos)
    } else {
        let (key, value) = attributes[i];
        let end = element_end(evs, pos, 1);
        if key == "id"@ {
            layout_attrs(evs, pos, attributes, i + 1, LayoutScan { id: value, ..st })
        } else if key == "name"@ {
            layout_attrs(evs, pos, attributes, i + 1, LayoutScan { name: value, ..st })
        } else if key == "isFolder"@ && value == "True"@ {
            layout_attrs(evs, end, attributes, i + 1, LayoutScan { depth: st.depth - 1, path: st.path.push((st.id, st.name)), ..st })
        } else if key == "isFolder"@ && value == "Marker"@ {
            let path = if st.path.len() > 0 { st.path.drop_last() } else { st.path };
            layout_attrs(evs, end, attributes, i + 1, LayoutScan { depth: st.depth - 1, path, ..st })
        } else if key == "isSeparatorItem"@ {
            layout_attrs(evs, end, attributes, i + 1, LayoutScan { depth: st.depth - 1, ..st })
        } else {
            layout_attrs(evs, pos, attributes, i + 1, st)
        }
    }
}

/// Reading the attributes moves the reader forward within the events, lowers the depth by at
/// most the number of events skipped, and leaves the events and the layouts alone.
pub proof fn lemma_layout_attrs(evs: Seq<EventView>, pos: int, attributes: Seq<(Seq<char>, Seq<char>)>, i: int, st: LayoutScan)
    requires
        0 <= pos <= evs.len(),
    ensures
        pos <= layout_attrs(evs, pos, attributes, i, st).1 <= evs.len(),
        st.depth - (layout_attrs(evs, pos, attributes, i, st).1 - pos) <= layout_attrs(evs, pos, attributes, i, st).0.depth <= st.depth,
        layout_attrs(evs, pos, attributes, i, st).0.content == st.content,
        layout_attrs(evs, pos, attributes, i, st).0.items == st.items,
    decreases attributes.len() - i,
{
    if !(i < 0 || i >= attributes.len() || pos < 0 || pos >= evs.len()) {
        lemma_element_fold_bounds(evs, pos, 1, (), no_steps());
        let (key, value) = attributes[i];
        let end = element_end(evs, pos, 1);
        if key == "id"@ {
            lemma_layout_attrs(evs, pos, attributes, i + 1, LayoutScan { id: value, ..st });
        } else if key == "name"@ {
            lemma_layout_attrs(evs, pos, attributes, i + 1, LayoutScan { name: value, ..st });
        } else if key == "isFolder"@ && value == "True"@ {
            lemma_layout_attrs(evs, end, attributes, i + 1, LayoutScan { depth: st.depth - 1, path: st.path.push((st.id, st.name)), ..st });
        } else if key == "isFolder"@ && value == "Marker"@ {
            let path = if st.path.len() > 0 { st.path.drop_last() } else { st.path };
            lemma_layout_attrs(evs, end, attributes, i + 1, LayoutScan { depth: st.depth - 1, path, ..st });
        } else if key == "isSeparatorItem"@ {
            lemma_layout_attrs(evs, end, attributes, i + 1, LayoutScan { depth: st.depth - 1, ..st });
        } else {
            lemma_layout_attrs(evs, pos, attributes, i + 1, st);
        }
    }
}

/// Reads the rest of the catalog from `pos` on, up to its end tag or the first malformed piece.
/// A start tag at depth 2 starts a new layout; there, an element other than `<Layout>` is
/// skipped whole. A `<Layout>` start tag has its attributes read ([`layout_attrs`]). Start
/// tags, end tags, text, CDATA and comments are kept in the layout's events, and the end of a `<Layout>`
/// back at depth 1 adds the layout, with the current folders, to the list.
pub open spec fn layout_scan(evs: Seq<EventView>, pos: int, st: LayoutScan) -> (LayoutScan, int)
    decreases evs.len() - pos,
{
    if pos < 0 || pos >= evs.len() {
        (st, pos)
    } else {
        match evs[pos] {
            EventView::Malformed => (st, pos + 1),
            EventView::Start(name, attributes) => {
                let d = st.depth + 1;
                let opened = if d == 2 {
                    LayoutScan { depth: d, id: Seq::empty(), name: Seq::empty(), content: Seq::empty(), ..st }
                } else {
                    LayoutScan { depth: d, ..st }
                };
                if d == 2 && name != "Layout"@ {
                    let end = element_end(evs, pos + 1, 1);
                    proof {
                        lemma_element_fold_bounds(evs, pos + 1, 1, (), no_steps());
                    }
                    layout_scan(evs, end, LayoutScan { depth: d - 1, ..opened })
                } else if name == "Layout"@ {
                    let (read, next) = layout_attrs(evs, pos + 1, attributes, 0, opened);
                    proof {
                        lemma_layout_attrs(evs, pos + 1, attributes, 0, opened);
                    }
                    layout_scan(evs, next, LayoutScan { content: read.content.push(evs[pos]), ..read })
                } else {
                    layout_scan(evs, pos + 1, LayoutScan { content: opened.content.push(evs[pos]), ..opened })
                }
            },
            EventView::End(name) => {
                let d = st.depth - 1;
                if d == 0 {
                    (LayoutScan { depth: d, ..st }, pos + 1)
                } else {
                    let content = st.content.push(evs[pos]);
                    if d == 1 && local_part(name) == "Layout"@ {
                        layout_scan(evs, pos + 1, LayoutScan {
                            depth: d,
                            content,
                            items: st.items.push((st.id, st.name, st.path, content)),
                            ..st
                        })
                    } else {
                        layout_scan(evs, pos + 1, LayoutScan { depth: d, content, ..st })
                    }
                }
            },
            EventView::Text(_) => layout_scan(evs, pos + 1, LayoutScan { content: st.content.push(evs[pos]), ..st }),
            EventView::CData(_) => layout_scan(evs, pos + 1, LayoutScan { content: st.content.push(evs[pos]), ..st }),
            EventView::Comment(_) => layout_scan(evs, pos + 1, LayoutScan { content: st.content.push(evs[pos]), ..st }),
            _ => layout_scan(evs, pos + 1, st),
        }
    }
}

/// A layout folder's marker closes exactly the folder it ends: reading a folder `<Layout>` (with
/// its id and name) and then a marker `<Layout>`, each closed at once, at the top of the catalog
/// leaves the folder path and the layouts as they were, so the layouts that follow stay in the
/// enclosing folders.
pub proof fn law_layout_marker_closes_innermost_folder(
    evs: Seq<EventView>,
    pos: int,
    st: LayoutScan,
    id: Seq<char>,
    name: Seq<char>,
)
    requires
        0 <= pos,
        pos + 4 <= evs.len(),
        st.depth == 1,
        evs[pos] == EventView::Start("Layout"@, seq![("id"@, id), ("name"@, name), ("isFolder"@, "True"@)]),
        evs[pos + 1] is End,
        evs[pos + 2] == EventView::Start("Layout"@, seq![("isFolder"@, "Marker"@)]),
        evs[pos + 3] is End,
    ensures
        layout_scan(evs, pos, st) == layout_scan(evs, pos + 4, LayoutScan {
            depth: 1,
            id: Seq::empty(),
            name: Seq::empty(),
            content: seq![evs[pos + 2]],
            path: st.path,
            items: st.items,
        }),
{
    reveal_strlit("id");
    reveal_strlit("name");
    reveal_strlit("isFolder");
    reveal_strlit("True");
    reveal_strlit("Marker");
    reveal_strlit("isSeparatorItem");
    let folder = seq![("id"@, id), ("name"@, name), ("isFolder"@, "True"@)];
    let marker = seq![("isFolder"@, "Marker"@)];
    assert(element_end(evs, pos + 1, 1) == pos + 2);
    assert(element_end(evs, pos + 3, 1) == pos + 4);
    let opened = LayoutScan { depth: 2, id: Seq::empty(), name: Seq::empty(), content: Seq::empty(), ..st };
    let with_id = LayoutScan { id, ..opened };
    let with_name = LayoutScan { name, ..with_id };
    let inside = LayoutScan { depth: 1, path: st.path.push((id, name)), ..with_name };
    assert(layout_attrs(evs, pos + 2, folder, 3, inside) == (inside, pos + 2));
    assert("isFolder"@.len() == 8 && "id"@.len() == 2 && "name"@.len() == 4);
    assert("True"@.len() == 4 && "Marker"@.len() == 6 && "isSeparatorItem"@.len() == 15) by {
        reveal_strlit("isSeparatorItem");
    }
    assert(layout_attrs(evs, pos + 1, folder, 2, with_name) == (inside, pos + 2));
    assert(layout_attrs(evs, pos + 1, folder, 1, with_id) == (inside, pos + 2));
    assert(layout_attrs(evs, pos + 1, folder, 0, opened) == (inside, pos + 2));
    let after_first = LayoutScan { content: seq![evs[pos]], ..inside };
    assert(layout_scan(evs, pos, st) == layout_scan(evs, pos + 2, after_first));
    let reopened = LayoutScan { depth: 2, id: Seq::empty(), name: Seq::empty(), content: Seq::empty(), ..after_first };
    assert(st.path.push((id, name)).drop_last() =~= st.path);
    let closed = LayoutScan { depth: 1, path: st.path, ..reopened };
    assert(layout_attrs(evs, pos + 4, marker, 1, closed) == (closed, pos + 4));
    assert(layout_attrs(evs, pos + 3, marker, 0, reopened) == (closed, pos + 4));
    assert(Seq::<EventView>::empty().push(evs[pos + 2]) =~= seq![evs[pos + 2]]);
}

/// A layout that is not a folder is stored, with its id, its name, the folder path open at that
/// point and its events, when its end tag is read; the folder path stays as it is.
pub proof fn law_layout_stored_in_current_folder(
    evs: Seq<EventView>,
    pos: int,
    st: LayoutScan,
    id: Seq<char>,
    name: Seq<char>,
)
    requires
        0 <= pos,
        pos + 2 <= evs.len(),
        st.depth == 1,
        evs[pos] == EventView::Start("Layout"@, seq![("id"@, id), ("name"@, name)]),
        evs[pos + 1] == EventView::End("Layout"@),
    ensures
        layout_scan(evs, pos, st) == layout_scan(evs, pos + 2, LayoutScan {
            depth: 1,
            id,
            name,
            content: seq![evs[pos], evs[pos + 1]],
            path: st.path,
            items: st.items.push((id, name, st.path, seq![evs[pos], evs[pos + 1]])),
        }),
{
    reveal_strlit("id");
    reveal_strlit("name");
    reveal_strlit("Layout");
    assert("id"@.len() == 2 && "name"@.len() == 4 && "Layout"@.len() == 6);
    assert(local_part("Layout"@) == "Layout"@) by {
        lemma_local_part_plain("Layout"@);
    }
    let attributes = seq![("id"@, id), ("name"@, name)];
    let opened = LayoutScan { depth: 2, id: Seq::empty(), name: Seq::empty(), content: Seq::empty(), ..st };
    let read = LayoutScan { id, name, ..opened };
    assert(layout_attrs(evs, pos + 1, attributes, 2, read) == (read, pos + 1));
    assert(layout_attrs(evs, pos + 1, attributes, 1, LayoutScan { id, ..opened }) == (read, pos + 1));
    assert(layout_attrs(evs, pos + 1, attributes, 0, opened) == (read, pos + 1));
    assert(Seq::<EventView>::empty().push(evs[pos]).push(evs[pos + 1]) =~= seq![evs[pos], evs[pos + 1]]);
    let after = LayoutScan { content: Seq::<EventView>::empty().push(evs[pos]), ..read };
    assert(layout_scan(evs, pos, st) == layout_scan(evs, pos + 1, after));
    assert(layout_scan(evs, pos + 1, after) == layout_scan(evs, pos + 2, LayoutScan {
        depth: 1,
        id,
        name,
        content: seq![evs[pos], evs[pos + 1]],
        path: st.path,
        items: st.items.push((id, name, st.path, seq![evs[pos], evs[pos + 1]])),
    }));
}

/// Nothing read of the catalog yet.
pub open spec fn layout_start() -> LayoutScan {
    LayoutScan { depth: 1, id: Seq::empty(), name: Seq::empty(), content: Seq::empty(), path: Seq::empty(), items: Seq::empty() }
}

/// The id, name, folders and events of each layout, as mathematical values.
pub open spec fn layout_views(items: Seq<LayoutInfo>) -> Seq<LayoutFields> {
    items.map_values(|l: LayoutInfo| (l.id@, l.name@, l.path.deep_view(), l.content.deep_view()))
}

/// Reads the layout catalog whose start tag was the last event read: its layouts, in order,
/// each with its folders and events.
pub fn xml_explode_layout_catalog(reader: &mut XmlReader, _start: &XmlEvent) -> (res: Vec<LayoutInfo>)
    ensures
        final(reader).events == old(reader).events,
        layout_views(res@) == layout_scan(old(reader).evs(), old(reader).pos as int, layout_start()).0.items,
        final(reader).pos == layout_scan(old(reader).evs(), old(reader).pos as int, layout_start()).1,
{
    let ghost evs = reader.evs();
    let ghost start = reader.pos as int;
    proof {
        reveal_strlit("True");
        reveal_strlit("Marker");
        assert("True"@.len() != "Marker"@.len());
    }
    let mut depth: i128 = 1;
    let mut id = String::new();
    let mut name = String::new();
    let mut content: Vec<XmlEvent> = Vec::new();
    let mut path: Vec<(String, String)> = Vec::new();
    let mut items: Vec<LayoutInfo> = Vec::new();
    assert(layout_views(items@) =~= Seq::<LayoutFields>::empty());
    assert(content.deep_view() =~= Seq::<EventView>::empty());
    assert(path.deep_view() =~= Seq::<(Seq<char>, Seq<char>)>::empty());
    loop
        invariant_except_break
            -(reader.pos as int) <= depth <= reader.pos + 1,
            layout_scan(evs, reader.pos as int, LayoutScan {
                depth: depth as int,
                id: id@,
                name: name@,
                content: content.deep_view(),
                path: path.deep_view(),
                items: layout_views(items@),
            }) == layout_scan(evs, start, layout_start()),
        invariant
            reader.events == old(reader).events,
            evs == reader.evs(),
            start == old(reader).pos,
            "True"@ != "Marker"@,
        ensures
            layout_scan(evs, start, layout_start()).0.items == layout_views(items@),
            layout_scan(evs, start, layout_start()).1 == reader.pos,
        decreases evs.len() - reader.pos,
    {
        let ghost pos = reader.pos as int;
        match reader.read_event() {
            None => break,
            Some(event) => match event {
                XmlEvent::Malformed => break,
                XmlEvent::Start { name: tag, attributes } => {
                    depth = depth + 1;
                    if depth == 2 {
                        id = String::new();
                        name = String::new();
                        content = Vec::new();
                        assert(content.deep_view() =~= Seq::<EventView>::empty());
                    }
                    if depth == 2 && !str_eq(tag.as_str(), "Layout") {
                        proof {
                            lemma_element_fold_bounds(evs, pos + 1, 1, (), no_steps());
                        }
                        skip_rest_of_element(reader);
                        depth = depth - 1;
                    } else {
                        if str_eq(tag.as_str(), "Layout") {
                            let ghost before = LayoutScan {
                                depth: depth as int,
                                id: id@,
                                name: name@,
                                content: content.deep_view(),
                                path: path.deep_view(),
                                items: layout_views(items@),
                            };
                            let ghost all = attributes.deep_view();
                            let ghost p0 = reader.pos as int;
                            proof {
                                lemma_layout_attrs(evs, p0, all, 0, before);
                            }
                            let mut i: usize = 0;
                            while i < attributes.len()
                                invariant
                                    reader.events == old(reader).events,
                                    evs == reader.evs(),
                                    all == attributes.deep_view(),
                                    i <= attributes.len(),
                                    p0 <= reader.pos <= evs.len(),
                                    "True"@ != "Marker"@,
                                    -(reader.pos as int) <= depth <= reader.pos + 1,
                                    layout_attrs(evs, reader.pos as int, all, i as int, LayoutScan {
                                        depth: depth as int,
                                        id: id@,
                                        name: name@,
                                        content: content.deep_view(),
                                        path: path.deep_view(),
                                        items: layout_views(items@),
                                    }) == layout_attrs(evs, p0, all, 0, before),
                                ensures
                                    i >= attributes.len() || reader.pos >= evs.len(),
                                decreases attributes.len() - i,
                            {
                                if reader.pos >= reader.events.len() {
                                    break;
                                }
                                assert(all[i as int] == attributes@[i as int].deep_view());
                                let key = attributes[i].0.as_str();
                                let value = attributes[i].1.as_str();
                                proof {
                                    lemma_element_fold_bounds(evs, reader.pos as int, 1, (), no_steps());
                                }
                                if str_eq(key, "id") {
                                    id = String::from_str(value);
                                } else if str_eq(key, "name") {
                                    name = String::from_str(value);
                                } else if str_eq(key, "isFolder") && str_eq(value, "True") {
                                    let ghost levels = path.deep_view();
                                    let ghost level = (id@, name@);
                                    path.push((String::from_str(id.as_str()), String::from_str(name.as_str())));
                                    assert(path.deep_view() =~= levels.push(level));
                                    skip_rest_of_element(reader);
                                    depth = depth - 1;
                                } else if str_eq(key, "isFolder") && str_eq(value, "Marker") {
                                    let ghost levels = path.deep_view();
                                    if path.len() > 0 {
                                        path.pop();
                                        assert(path.deep_view() =~= levels.drop_last());
                                    }
                                    skip_rest_of_element(reader);
                                    depth = depth - 1;
                                } else if str_eq(key, "isSeparatorItem") {
                                    skip_rest_of_element(reader);
                                    depth = depth - 1;
                                }
                                i = i + 1;
                            }
                        }
                        let ghost kept = content.deep_view();
                        content.push(clone_event(event));
                        assert(content.deep_view() =~= kept.push(evs[pos]));
                    }
                },
                XmlEvent::End { name: tag } => {
                    depth = depth - 1;
                    if depth == 0 {
                        break;
                    }
                    let ghost kept = content.deep_view();
                    content.push(clone_event(event));
                    assert(content.deep_view() =~= kept.push(evs[pos]));
                    if depth == 1 && str_eq(local_name(tag.as_str()).as_str(), "Layout") {
                        let ghost list = layout_views(items@);
                        let ghost done = (id@, name@, path.deep_view(), content.deep_view());
                        let layout = LayoutInfo {
                            id: String::from_str(id.as_str()),
                            name: String::from_str(name.as_str()),
                            content: copy_events(&content, 0, content.len()),
                            path: clone_attributes(&path),
                        };
                        assert(content.deep_view().subrange(0, content.len() as int) =~= content.deep_view());
                        items.push(layout);
                        assert(layout_views(items@) =~= list.push(done));
                    }
                },
                XmlEvent::Text { .. } | XmlEvent::CData { .. } | XmlEvent::Comment { .. } => {
                    let ghost kept = content.deep_view();
                    content.push(clone_event(event));
                    assert(content.deep_view() =~= kept.push(evs[pos]));
                },
                _ => {},
            },
        }
    }
    items
}

} // verus!
