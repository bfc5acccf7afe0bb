//! The folders of the script catalog: for each script, the folders it sits in.
use vstd::prelude::*;

use crate::catalog::{keys_unique, latest, lookup, store_entry};
use crate::text::str_eq;
use crate::xml::{clone_attributes, EventView, XmlEvent, XmlReader};

verus! {

/// A folder path: the id and name of each folder, outermost first.
pub type FolderPath = Seq<(Seq<char>, Seq<char>)>;

/// What the attributes of a `<Script>` say, read in order: the last `id`, the last `name`,
/// whether an `isFolder` is `True` (a folder) or `Marker` (the end of a folder), and whether it
/// has an `isSeparatorItem` attribute at all.
pub open spec fn script_fields(attributes: Seq<(Seq<char>, Seq<char>)>) -> (Seq<char>, Seq<char>, bool, bool, bool)
    decreases attributes.len(),
{
    if attributes.len() == 0 {
        (Seq::empty(), Seq::empty(), false, false, false)
    } else {
        let (id, name, is_folder, is_marker, is_separator) = script_fields(attributes.drop_last());
        let (key, value) = attributes.last();
        if key == "id"@ {
            (value, name, is_folder, is_marker, is_separator)
        } else if key == "name"@ {
            (id, value, is_folder, is_marker, is_separator)
        } else if key == "isFolder"@ {
            (id, name, is_folder || value == "True"@, is_marker || value == "Marker"@, is_separator)
        } else if key == "isSeparatorItem"@ {
            (id, name, is_folder, is_marker, true)
        } else {
            (id, name, is_folder, is_marker, is_separator)
        }
    }
}

/// Reads the rest of the catalog from `pos` on, with `depth` elements open and the folder path
/// `path`, up to its end tag or the first malformed piece. A `<Script>` at depth 2 that is a
/// folder with a name opens a level; one that is neither a folder, a marker nor a separator
/// is a script, whose id and current path are added to `writes`; a marker closes the innermost
/// level (if any). The writes in order, and the position where reading stopped.
pub open spec fn script_dirs_scan(
    evs: Seq<EventView>,
    pos: int,
    depth: int,
    path: FolderPath,
    writes: Seq<(Seq<char>, FolderPath)>,
) -> (Seq<(Seq<char>, FolderPath)>, int)
    decreases evs.len() - pos,
{
    if pos < 0 || pos >= evs.len() {
        (writes, pos)
    } else {
        match evs[pos] {
            EventView::Malformed => (writes, pos + 1),
            EventView::Start(name, attributes) => {
                let d = depth + 1;
                if d == 2 && name == "Script"@ {
                    let (id, script_name, is_folder, is_marker, is_separator) = script_fields(attributes);
                    if is_folder && script_name.len() > 0 {
                        script_dirs_scan(evs, pos + 1, d, path.push((id, script_name)), writes)
                    } else if !is_folder && !is_marker && !is_separator {
                        script_dirs_scan(evs, pos + 1, d, path, writes.push((id, path)))
                    } else if is_marker && path.len() > 0 {
                        script_dirs_scan(evs, pos + 1, d, path.drop_last(), writes)
                    } else {
                        script_dirs_scan(evs, pos + 1, d, path, writes)
                    }
                } else {
                    script_dirs_scan(evs, pos + 1, d, path, writes)
                }
            },
            EventView::End(_) => if depth - 1 == 0 {
                (writes, pos + 1)
            } else {
                script_dirs_scan(evs, pos + 1, depth - 1, path, writes)
            },
            _ => script_dirs_scan(evs, pos + 1, depth, path, writes),
        }
    }
}

/// A folder's marker closes exactly the folder it ends: reading a named folder `<Script>` and
/// then a marker `<Script>`, each closed at once, at the top of the catalog leaves the folder
/// path and the stored paths as they were, so the scripts that follow stay in the enclosing
/// folders.
pub proof fn law_script_marker_closes_innermost_folder(
    evs: Seq<EventView>,
    pos: int,
    path: FolderPath,
    writes: Seq<(Seq<char>, FolderPath)>,
    folder: Seq<(Seq<char>, Seq<char>)>,
    marker: Seq<(Seq<char>, Seq<char>)>,
)
    requires
        0 <= pos,
        pos + 4 <= evs.len(),
        evs[pos] == EventView::Start("Script"@, folder),
        script_fields(folder).2,
        script_fields(folder).1.len() > 0,
        evs[pos + 1] is End,
        evs[pos + 2] == EventView::Start("Script"@, marker),
        !script_fields(marker).2,
        script_fields(marker).3,
        evs[pos + 3] is End,
    ensures
        script_dirs_scan(evs, pos, 1, path, writes) == script_dirs_scan(evs, pos + 4, 1, path, writes),
{
    let opened = path.push((script_fields(folder).0, script_fields(folder).1));
    assert(opened.drop_last() =~= path);
    assert(script_dirs_scan(evs, pos + 2, 1, opened, writes) == script_dirs_scan(evs, pos + 3, 2, path, writes));
    assert(script_dirs_scan(evs, pos, 1, path, writes) == script_dirs_scan(evs, pos + 1, 2, opened, writes));
}

/// A script that is neither a folder, a marker nor a separator is stored with the folder path
/// open at that point, which it leaves as it is.
pub proof fn law_script_stored_in_current_folder(
    evs: Seq<EventView>,
    pos: int,
    path: FolderPath,
    writes: Seq<(Seq<char>, FolderPath)>,
    script: Seq<(Seq<char>, Seq<char>)>,
)
    requires
        0 <= pos,
        pos + 2 <= evs.len(),
        evs[pos] == EventView::Start("Script"@, script),
        !script_fields(script).2,
        !script_fields(script).3,
        !script_fields(script).4,
        evs[pos + 1] is End,
    ensures
        script_dirs_scan(evs, pos, 1, path, writes)
            == script_dirs_scan(evs, pos + 2, 1, path, writes.push((script_fields(script).0, path))),
{
    assert(script_dirs_scan(evs, pos, 1, path, writes)
        == script_dirs_scan(evs, pos + 1, 2, path, writes.push((script_fields(script).0, path))));
}

/// Reads the attributes of a `<Script>`, as [`script_fields`] says.
pub fn read_script_fields(attributes: &Vec<(String, String)>) -> (res: (String, String, bool, bool, bool))
    ensures
        (res.0@, res.1@, res.2, res.3, res.4) == script_fields(attributes.deep_view()),
{
    let ghost all = attributes.deep_view();
    proof {
        reveal_strlit("True");
        reveal_strlit("Marker");
        assert("True"@.len() != "Marker"@.len());
    }
    let mut id = String::new();
    let mut name = String::new();
    let mut is_folder = false;
    let mut is_marker = false;
    let mut is_separator = false;
    let mut i: usize = 0;
    assert(all.take(0) =~= Seq::<(Seq<char>, Seq<char>)>::empty());
    while i < attributes.len()
        invariant
            all == attributes.deep_view(),
            i <= attributes.len(),
            "True"@ != "Marker"@,
            script_fields(all.take(i as int)) == (id@, name@, is_folder, is_marker, is_separator),
        decreases attributes.len() - i,
    {
        assert(all.take(i + 1).drop_last() =~= all.take(i as int));
        let key = attributes[i].0.as_str();
        let value = attributes[i].1.as_str();
        assert(all[i as int] == attributes@[i as int].deep_view());
        if str_eq(key, "id") {
            id = String::from_str(value);
        } else if str_eq(key, "name") {
            name = String::from_str(value);
        } else if str_eq(key, "isFolder") {
            if str_eq(value, "True") {
                is_folder = true;
            } else if str_eq(value, "Marker") {
                is_marker = true;
            }
        } else if str_eq(key, "isSeparatorItem") {
            is_separator = true;
        }
        i = i + 1;
    }
    assert(all.take(i as int) =~= all);
    (id, name, is_folder, is_marker, is_separator)
}

/// Reads the script catalog whose start tag was the last event read: for each script id, the
/// folders (id and name) that the script sits in, where a later script with the same id
/// replaces an earlier one.
pub fn parse_script_directories(reader: &mut XmlReader, _start: &XmlEvent) -> (res: Vec<(String, Vec<(String, String)>)>)
    ensures
        final(reader).events == old(reader).events,
        final(reader).pos == script_dirs_scan(old(reader).evs(), old(reader).pos as int, 1, Seq::empty(), Seq::empty()).1,
        keys_unique(res.deep_view()),
        forall|id: Seq<char>| #[trigger] lookup(res.deep_view(), id)
            == latest(script_dirs_scan(old(reader).evs(), old(reader).pos as int, 1, Seq::empty(), Seq::empty()).0, id),
{
    let ghost evs = reader.evs();
    let ghost start = reader.pos as int;
    let ghost mut writes: Seq<(Seq<char>, FolderPath)> = Seq::empty();
    let mut depth: i128 = 1;
    let mut path: Vec<(String, String)> = Vec::new();
    let mut scripts: Vec<(String, Vec<(String, String)>)> = Vec::new();
    assert(scripts.deep_view() =~= Seq::<(Seq<char>, FolderPath)>::empty());
    assert(path.deep_view() =~= Seq::<(Seq<char>, Seq<char>)>::empty());
    loop
        invariant_except_break
            -(reader.pos as int) <= depth <= reader.pos + 1,
            script_dirs_scan(evs, reader.pos as int, depth as int, path.deep_view(), writes)
                == script_dirs_scan(evs, start, 1, Seq::empty(), Seq::empty()),
        invariant
            reader.events == old(reader).events,
            evs == reader.evs(),
            start == old(reader).pos,
            keys_unique(scripts.deep_view()),
            forall|id: Seq<char>| #[trigger] lookup(scripts.deep_view(), id) == latest(writes, id),
        ensures
            script_dirs_scan(evs, start, 1, Seq::empty(), Seq::empty()) == (writes, reader.pos as int),
        decreases evs.len() - reader.pos,
    {
        match reader.read_event() {
            None => break,
            Some(event) => match event {
                XmlEvent::Malformed => break,
                XmlEvent::Start { name, attributes } => {
                    depth = depth + 1;
                    if depth == 2 && str_eq(name.as_str(), "Script") {
                        let (id, script_name, is_folder, is_marker, is_separator) = read_script_fields(attributes);
                        if is_folder && script_name.as_str().unicode_len() > 0 {
                            let ghost before = path.deep_view();
                            let ghost folder = (id@, script_name@);
                            path.push((id, script_name));
                            assert(path.deep_view() =~= before.push(folder));
                        } else if !is_folder && !is_marker && !is_separator {
                            let ghost write = (id@, path.deep_view());
                            let ghost before = writes;
                            store_entry(&mut scripts, id, clone_attributes(&path));
                            proof {
                                writes = writes.push(write);
                                assert forall|k: Seq<char>| #[trigger] lookup(scripts.deep_view(), k) == latest(writes, k) by {
                                    assert(writes.drop_last() =~= before);
                                }
                            }
                        } else if is_marker {
                            let ghost before = path.deep_view();
                            if path.len() > 0 {
                                path.pop();
                                assert(path.deep_view() =~= before.drop_last());
                            }
                        }
                    }
                },
                XmlEvent::End { .. } => {
                    depth = depth - 1;
                    if depth == 0 {
                        break;
                    }
                },
                _ => {},
            },
        }
    }
    scripts
}

} // verus!
