//! Decisions made while a catalog is exploded into one file per item: which tags go to the
//! skeleton, how folder items are read, and which folder each item's file goes to.
use vstd::prelude::*;
use vstd::string::*;

use crate::config::{catalog_config, CatalogType};
use crate::text::{bytes_eq, join, join_seq, str_eq};
use vstd::utf8::encode_utf8;
use crate::xml::{first_attribute, get_attribute, clone_attributes, copy_events, element_end, lemma_element_fold_bounds, no_steps, skip_rest_of_element, xml_unescaped, unescape, EventView, XmlEvent, XmlReader};

verus! {

/// Whether a skeleton line holds a start tag or an end tag.
#[derive(Debug, Clone, Copy, PartialEq, Eq, Structural)]
pub enum XmlEventType {
    Start,
    End,
}

/// A line of the skeleton: a tag kept in place of an item that went to a file of its own, with
/// the depth of the catalog, its depth below the catalog and whether it is a child of the catalog.
#[derive(Debug)]
pub struct SkeletonLine {
    pub base_depth: usize,
    pub rel_depth: usize,
    pub text: String,
    pub is_child: bool,
    pub kind: XmlEventType,
}

/// The skeleton of an exploded file as text: what has been written so far, its last line and
/// the kind of tag on that line.
#[derive(Debug)]
pub struct Skeleton {
    pub content: String,
    pub previous_line: String,
    pub previous_event_type: XmlEventType,
}

impl Default for Skeleton {
    fn default() -> (res: Self)
        ensures
            res.content@ == Seq::<char>::empty(),
            res.previous_line@ == Seq::<char>::empty(),
            res.previous_event_type == XmlEventType::Start,
    {
        Skeleton { content: String::new(), previous_line: String::new(), previous_event_type: XmlEventType::Start }
    }
}

/// Whether a start tag at `rel_depth` below the catalog goes to the skeleton: in lossless mode,
/// the catalog's children and, where items are wrapped in an `<ObjectList>`, its grandchildren.
/// `Some(is_child)` where it does.
pub open spec fn skeleton_start(lossless: bool, rel_depth: int, wrapped_in_object_list: bool) -> Option<bool> {
    if lossless && (rel_depth == 2 || (wrapped_in_object_list && rel_depth == 3)) {
        Some(wrapped_in_object_list || rel_depth == 2)
    } else {
        None
    }
}

/// Adds a start tag to the skeleton where [`skeleton_start`] says it belongs there.
pub fn add_start_tag_to_skeleton(
    skeleton: &mut Vec<SkeletonLine>,
    lossless: bool,
    start_tag: &str,
    base_depth: usize,
    rel_depth: usize,
    wrapped_in_object_list: bool,
)
    ensures
        match skeleton_start(lossless, rel_depth as int, wrapped_in_object_list) {
            Some(is_child) => {
                &&& final(skeleton)@.len() == old(skeleton)@.len() + 1
                &&& final(skeleton)@.take(old(skeleton)@.len() as int) == old(skeleton)@
                &&& final(skeleton)@.last().base_depth == base_depth
                &&& final(skeleton)@.last().rel_depth == rel_depth
                &&& final(skeleton)@.last().text@ == start_tag@
                &&& final(skeleton)@.last().is_child == is_child
                &&& final(skeleton)@.last().kind == XmlEventType::Start
            },
            None => final(skeleton)@ == old(skeleton)@,
        },
{
    if !lossless {
        return;
    }
    let should_add = rel_depth == 2 || (wrapped_in_object_list && rel_depth == 3);
    if !should_add {
        return;
    }
    let is_child = wrapped_in_object_list || rel_depth == 2;
    skeleton.push(SkeletonLine {
        base_depth,
        rel_depth,
        text: String::from_str(start_tag),
        is_child,
        kind: XmlEventType::Start,
    });
    assert(skeleton@.take(old(skeleton)@.len() as int) =~= old(skeleton)@);
}

/// Reads the rest of an element that is not a catalog item (a `<UUID>`, a `<TagList>`, ...),
/// whose start tag was the last event read. In lossless mode its events are handed back to go
/// to the skeleton; otherwise they are skipped.
pub fn handle_ancillary_element(reader: &mut XmlReader, lossless: bool) -> (rest: Vec<XmlEvent>)
    requires
        old(reader).pos <= old(reader).events@.len(),
    ensures
        final(reader).events == old(reader).events,
        final(reader).pos == element_end(old(reader).evs(), old(reader).pos as int, 1),
        rest.deep_view() == if lossless {
            old(reader).evs().subrange(old(reader).pos as int, final(reader).pos as int)
        } else {
            Seq::empty()
        },
{
    let start = reader.pos;
    proof {
        lemma_element_fold_bounds(reader.evs(), start as int, 1, (), no_steps());
    }
    skip_rest_of_element(reader);
    if lossless {
        copy_events(reader.events, start, reader.pos)
    } else {
        let rest: Vec<XmlEvent> = Vec::new();
        assert(rest.deep_view() =~= Seq::<EventView>::empty());
        rest
    }
}

/// What the folder attributes of a catalog item say.
#[derive(Debug)]
pub struct FolderAttributes {
    pub id: String,
    pub name: String,
    pub is_folder: bool,
    pub is_marker: bool,
    pub is_separator: bool,
}

/// The folder attributes read from `attributes`, in order: the last `id`, the last `name`
/// (unescaped), whether an `isFolder` is `True` (a folder) or `Marker` (the end of a folder), and
/// whether an `isSeparatorItem` is `True`. `None` where a `name` does not unescape.
pub open spec fn folder_fields(attributes: Seq<(Seq<char>, Seq<char>)>) -> Option<(Seq<char>, Seq<char>, bool, bool, bool)>
    decreases attributes.len(),
{
    if attributes.len() == 0 {
        Some((Seq::empty(), Seq::empty(), false, false, false))
    } else {
        match folder_fields(attributes.drop_last()) {
            None => None,
            Some((id, name, is_folder, is_marker, is_separator)) => {
                let (key, value) = attributes.last();
                if key == "id"@ {
                    Some((value, name, is_folder, is_marker, is_separator))
                } else if key == "name"@ {
                    match xml_unescaped(value) {
                        Some(n) => Some((id, n, is_folder, is_marker, is_separator)),
                        None => None,
                    }
                } else if key == "isFolder"@ {
                    Some((id, name, is_folder || value == "True"@, is_marker || value == "Marker"@, is_separator))
                } else if key == "isSeparatorItem"@ {
                    Some((id, name, is_folder, is_marker, is_separator || value == "True"@))
                } else {
                    Some((id, name, is_folder, is_marker, is_separator))
                }
            },
        }
    }
}

/// The fields of a [`FolderAttributes`] as mathematical values.
pub open spec fn folder_view(f: FolderAttributes) -> (Seq<char>, Seq<char>, bool, bool, bool) {
    (f.id@, f.name@, f.is_folder, f.is_marker, f.is_separator)
}

/// Reads the folder attributes of a catalog item; `None` where a `name` does not unescape.
pub fn parse_folder_attributes_checked(attributes: &Vec<(String, String)>) -> (res: Option<FolderAttributes>)
    ensures
        match folder_fields(attributes.deep_view()) {
            Some(f) => res matches Some(r) && folder_view(r) == f,
            None => res is None,
        },
{
    let ghost all = attributes.deep_view();
    let mut out = FolderAttributes {
        id: String::new(),
        name: String::new(),
        is_folder: false,
        is_marker: false,
        is_separator: false,
    };
    let mut i: usize = 0;
    assert(all.take(0) =~= Seq::<(Seq<char>, Seq<char>)>::empty());
    while i < attributes.len()
        invariant
            all == attributes.deep_view(),
            i <= attributes.len(),
            folder_fields(all.take(i as int)) == Some(folder_view(out)),
        decreases attributes.len() - i,
    {
        proof {
            reveal_strlit("True");
            reveal_strlit("Marker");
            assert("True"@.len() != "Marker"@.len());
        }
        assert(all.take(i + 1).drop_last() =~= all.take(i as int));
        assert(all.take(i + 1).last() == all[i as int]);
        let key = attributes[i].0.as_str();
        let value = attributes[i].1.as_str();
        assert(all[i as int] == attributes@[i as int].deep_view());
        assert(all[i as int] == (key@, value@));
        if str_eq(key, "id") {
            out.id = String::from_str(value);
        } else if str_eq(key, "name") {
            match unescape(value) {
                Some(n) => {
                    out.name = n;
                },
                None => {
                    proof {
                        lemma_folder_fields_stays_none(all, i as int + 1);
                        assert(all.take(attributes.len() as int) =~= all);
                    }
                    return None;
                },
            }
        } else if str_eq(key, "isFolder") {
            if str_eq(value, "True") {
                out.is_folder = true;
            } else if str_eq(value, "Marker") {
                out.is_marker = true;
            }
        } else if str_eq(key, "isSeparatorItem") {
            if str_eq(value, "True") {
                out.is_separator = true;
            }
        }
        assert(folder_fields(all.take(i + 1)) == Some(folder_view(out)));
        i = i + 1;
    }
    assert(all.take(i as int) =~= all);
    Some(out)
}

/// Once a `name` fails to unescape, the attributes read up to any later point fail too.
proof fn lemma_folder_fields_stays_none(all: Seq<(Seq<char>, Seq<char>)>, n: int)
    requires
        0 <= n <= all.len(),
        folder_fields(all.take(n)) is None,
    ensures
        folder_fields(all) is None,
    decreases all.len() - n,
{
    if n < all.len() {
        assert(all.take(n + 1).drop_last() =~= all.take(n));
        lemma_folder_fields_stays_none(all, n + 1);
    } else {
        assert(all.take(n) =~= all);
    }
}

/// Reads the folder attributes of a catalog item whose `name` attributes all unescape.
pub fn parse_folder_attributes(attributes: &Vec<(String, String)>) -> (res: FolderAttributes)
    requires
        folder_fields(attributes.deep_view()) is Some,
    ensures
        Some(folder_view(res)) == folder_fields(attributes.deep_view()),
{
    match parse_folder_attributes_checked(attributes) {
        Some(f) => f,
        None => {
            assert(false);
            FolderAttributes { id: String::new(), name: String::new(), is_folder: false, is_marker: false, is_separator: false }
        },
    }
}

/// The folder path after reading a catalog item: a folder opens a level named `segment`, a
/// marker closes the innermost level (if any), and other items leave the path as it is.
pub open spec fn next_path<T>(path: Seq<T>, segment: T, is_folder: bool, is_marker: bool) -> Seq<T> {
    let opened = if is_folder { path.push(segment) } else { path };
    if is_marker && opened.len() > 0 {
        opened.drop_last()
    } else {
        opened
    }
}

/// Moves the folder path past a catalog item, as [`next_path`] says.
pub fn update_current_path(current_path: &mut Vec<String>, segment: String, is_folder: bool, is_marker: bool)
    ensures
        final(current_path).deep_view() == next_path(old(current_path).deep_view(), segment@, is_folder, is_marker),
{
    let ghost before = current_path.deep_view();
    if is_folder {
        current_path.push(segment);
        assert(current_path.deep_view() =~= before.push(segment@));
    }
    if is_marker {
        let ghost opened = current_path.deep_view();
        if current_path.len() > 0 {
            current_path.pop();
            assert(current_path.deep_view() =~= opened.drop_last());
        }
    }
}

/// A folder's marker closes the level the folder opened: reading a folder and then a marker
/// gives back the path from before the folder.
pub proof fn law_folder_marker_restores_path<T>(path: Seq<T>, segment: T, marker_segment: T)
    ensures
        next_path(next_path(path, segment, true, false), marker_segment, false, true) == path,
{
    assert(path.push(segment).drop_last() =~= path);
}

/// The value stored under `key` (the first entry with that key).
pub open spec fn lookup<V>(entries: Seq<(Seq<char>, V)>, key: Seq<char>) -> Option<V>
    decreases entries.len(),
{
    if entries.len() == 0 {
        None
    } else if entries[0].0 == key {
        Some(entries[0].1)
    } else {
        lookup(entries.drop_first(), key)
    }
}

/// The value of the last write to `key` in a list of writes.
pub open spec fn latest<V>(writes: Seq<(Seq<char>, V)>, key: Seq<char>) -> Option<V>
    decreases writes.len(),
{
    if writes.len() == 0 {
        None
    } else if writes.last().0 == key {
        Some(writes.last().1)
    } else {
        latest(writes.drop_last(), key)
    }
}

/// No key occurs twice.
pub open spec fn keys_unique<V>(entries: Seq<(Seq<char>, V)>) -> bool {
    forall|i: int, j: int| 0 <= i < j < entries.len() ==> entries[i].0 != entries[j].0
}

/// With unique keys, the entry at `i` is what its key looks up.
pub proof fn lemma_lookup_at<V>(entries: Seq<(Seq<char>, V)>, i: int)
    requires
        keys_unique(entries),
        0 <= i < entries.len(),
    ensures
        lookup(entries, entries[i].0) == Some(entries[i].1),
    decreases i,
{
    if i > 0 {
        assert(entries.drop_first()[i - 1] == entries[i]);
        lemma_lookup_at(entries.drop_first(), i - 1);
    }
}

/// A key that no entry has looks up nothing.
pub proof fn lemma_lookup_absent<V>(entries: Seq<(Seq<char>, V)>, key: Seq<char>)
    requires
        forall|j: int| 0 <= j < entries.len() ==> entries[j].0 != key,
    ensures
        lookup(entries, key) is None,
    decreases entries.len(),
{
    if entries.len() > 0 {
        lemma_lookup_absent(entries.drop_first(), key);
    }
}

/// Storing `value` under a `key` that the entry at `i` has replaces that entry in place.
pub proof fn lemma_store_replace<V>(before: Seq<(Seq<char>, V)>, i: int, key: Seq<char>, value: V)
    requires
        keys_unique(before),
        0 <= i < before.len(),
        before[i].0 == key,
    ensures
        keys_unique(before.update(i, (key, value))),
        forall|k: Seq<char>| #[trigger] lookup(before.update(i, (key, value)), k)
            == if k == key { Some(value) } else { lookup(before, k) },
{
    let after = before.update(i, (key, value));
    assert forall|k: Seq<char>| #[trigger] lookup(after, k) == if k == key { Some(value) } else { lookup(before, k) } by {
        if k == key {
            lemma_lookup_at(after, i);
        } else if exists|j: int| 0 <= j < before.len() && before[j].0 == k {
            let j = choose|j: int| 0 <= j < before.len() && before[j].0 == k;
            lemma_lookup_at(before, j);
            lemma_lookup_at(after, j);
        } else {
            lemma_lookup_absent(before, k);
            lemma_lookup_absent(after, k);
        }
    }
}

/// Storing `value` under a `key` that no entry has adds the entry at the end.
pub proof fn lemma_store_append<V>(before: Seq<(Seq<char>, V)>, key: Seq<char>, value: V)
    requires
        keys_unique(before),
        forall|j: int| 0 <= j < before.len() ==> before[j].0 != key,
    ensures
        keys_unique(before.push((key, value))),
        forall|k: Seq<char>| #[trigger] lookup(before.push((key, value)), k)
            == if k == key { Some(value) } else { lookup(before, k) },
{
    let after = before.push((key, value));
    assert forall|k: Seq<char>| #[trigger] lookup(after, k) == if k == key { Some(value) } else { lookup(before, k) } by {
        if k == key {
            lemma_lookup_at(after, before.len() as int);
        } else if exists|j: int| 0 <= j < before.len() && before[j].0 == k {
            let j = choose|j: int| 0 <= j < before.len() && before[j].0 == k;
            lemma_lookup_at(before, j);
            lemma_lookup_at(after, j);
        } else {
            lemma_lookup_absent(before, k);
            lemma_lookup_absent(after, k);
        }
    }
}

/// Stores `value` under `key` in a list of entries with unique keys: the entry with that key is
/// replaced in place, or, where there is none, the new entry comes last.
pub fn store_entry<V: DeepView>(entries: &mut Vec<(String, V)>, key: String, value: V)
    requires
        keys_unique(old(entries).deep_view()),
    ensures
        keys_unique(final(entries).deep_view()),
        forall|k: Seq<char>| #[trigger] lookup(final(entries).deep_view(), k)
            == if k == key@ { Some(value.deep_view()) } else { lookup(old(entries).deep_view(), k) },
{
    let ghost before = entries.deep_view();
    let ghost entry = (key@, value.deep_view());
    let mut i: usize = 0;
    let mut found = false;
    while i < entries.len()
        invariant_except_break
            !found,
        invariant
            before == entries.deep_view(),
            i <= entries.len(),
            forall|j: int| 0 <= j < i ==> before[j].0 != key@,
        ensures
            i <= entries.len(),
            found ==> i < entries.len() && before[i as int].0 == key@,
            !found ==> forall|j: int| 0 <= j < before.len() ==> before[j].0 != key@,
        decreases entries.len() - i,
    {
        if str_eq(entries[i].0.as_str(), key.as_str()) {
            assert(before[i as int] == entries@[i as int].deep_view());
            found = true;
            break;
        }
        i = i + 1;
    }
    let pair = (key, value);
    assert(pair.deep_view() == entry);
    if found {
        let ghost entries_before = entries@;
        entries.set(i, pair);
        proof {
            assert forall|j: int| 0 <= j < before.len() implies #[trigger] entries.deep_view()[j] == before.update(i as int, entry)[j] by {
                if j != i {
                    assert(entries@[j] == entries_before[j]);
                }
            }
            assert(entries.deep_view() =~= before.update(i as int, entry));
            lemma_store_replace(before, i as int, entry.0, entry.1);
        }
    } else {
        entries.push(pair);
        proof {
            assert(entries.deep_view() =~= before.push(entry));
            lemma_store_append(before, entry.0, entry.1);
        }
    }
}

/// The folder path of each catalog item, by the item's id; no id has two entries.
#[derive(Debug)]
pub struct FolderStructure {
    item_paths: Vec<(String, Vec<String>)>,
}

impl FolderStructure {
    /// No id has two entries.
    #[verifier::type_invariant]
    spec fn ids_unique(self) -> bool {
        keys_unique(self.item_paths.deep_view())
    }

    /// The entries as mathematical values: id and folder path.
    pub closed spec fn entries(&self) -> Seq<(Seq<char>, Seq<Seq<char>>)> {
        self.item_paths.deep_view()
    }

    /// The path stored for `id`, empty where there is none.
    pub open spec fn path_for(&self, id: Seq<char>) -> Seq<Seq<char>> {
        match lookup(self.entries(), id) {
            Some(p) => p,
            None => Seq::empty(),
        }
    }

    /// An empty structure.
    pub fn new() -> (res: Self)
        ensures
            res.entries() == Seq::<(Seq<char>, Seq<Seq<char>>)>::empty(),
    {
        let res = FolderStructure { item_paths: Vec::new() };
        assert(res.entries() =~= Seq::<(Seq<char>, Seq<Seq<char>>)>::empty());
        res
    }

    /// The number of ids stored.
    pub fn len(&self) -> (res: usize)
        ensures
            res == self.entries().len(),
    {
        self.item_paths.len()
    }

    /// Stores `path` as the folder path of `id`, replacing what was stored for it.
    pub fn insert(&mut self, id: String, path: Vec<String>)
        ensures
            forall|k: Seq<char>| #[trigger] lookup(final(self).entries(), k)
                == if k == id@ { Some(path.deep_view()) } else { lookup(old(self).entries(), k) },
    {
        proof {
            use_type_invariant(&*self);
        }
        let mut entries: Vec<(String, Vec<String>)> = Vec::new();
        std::mem::swap(&mut entries, &mut self.item_paths);
        store_entry(&mut entries, id, path);
        self.item_paths = entries;
    }

    /// The folder path stored for `id`; empty where there is none.
    pub fn get_path_for_id(&self, id: &str) -> (res: Vec<String>)
        ensures
            res.deep_view() == self.path_for(id@),
    {
        let ghost all = self.entries();
        let mut i: usize = 0;
        assert(all.skip(0) =~= all);
        while i < self.item_paths.len()
            invariant
                all == self.entries(),
                i <= self.item_paths.len(),
                lookup(all, id@) == lookup(all.skip(i as int), id@),
            decreases self.item_paths.len() - i,
        {
            assert(all.skip(i as int).drop_first() =~= all.skip(i + 1));
            if str_eq(self.item_paths[i].0.as_str(), id) {
                return clone_strings(&self.item_paths[i].1);
            }
            i = i + 1;
        }
        let res: Vec<String> = Vec::new();
        assert(res.deep_view() =~= Seq::<Seq<char>>::empty());
        res
    }
}

/// What a read gives back of a write: after `id` is stored with a path, looking `id` up gives
/// that path, and every other id gives what it gave before.
pub proof fn law_folder_structure_read_after_write(
    before: FolderStructure,
    after: FolderStructure,
    id: Seq<char>,
    path: Seq<Seq<char>>,
    other: Seq<char>,
)
    requires
        forall|k: Seq<char>| #[trigger] lookup(after.entries(), k)
            == if k == id { Some(path) } else { lookup(before.entries(), k) },
    ensures
        after.path_for(id) == path,
        other != id ==> after.path_for(other) == before.path_for(other),
{
    assert(lookup(after.entries(), id) == Some(path));
    assert(lookup(after.entries(), other) == if other == id { Some(path) } else { lookup(before.entries(), other) });
}

/// A copy of a list of strings.
pub fn clone_strings(parts: &Vec<String>) -> (res: Vec<String>)
    ensures
        res.deep_view() == parts.deep_view(),
{
    let mut res: Vec<String> = Vec::new();
    let mut i: usize = 0;
    while i < parts.len()
        invariant
            i <= parts.len(),
            res.deep_view() == parts.deep_view().take(i as int),
        decreases parts.len() - i,
    {
        let ghost before = res.deep_view();
        let part = parts[i].clone();
        assert(part@ == parts.deep_view()[i as int]);
        res.push(part);
        assert(res.deep_view() =~= before.push(part@));
        assert(res.deep_view() =~= parts.deep_view().take(i + 1));
        i = i + 1;
    }
    assert(parts.deep_view().take(i as int) =~= parts.deep_view());
    res
}

/// Records the folder path of the item `current_id`, where folders are being tracked.
pub fn update_folder_structure(folder_structure_result: &mut Option<FolderStructure>, current_id: &str, current_path: &Vec<String>)
    ensures
        match *old(folder_structure_result) {
            None => *final(folder_structure_result) is None,
            Some(before) => *final(folder_structure_result) matches Some(after)
                && forall|k: Seq<char>| #[trigger] lookup(after.entries(), k)
                    == if k == current_id@ { Some(current_path.deep_view()) } else { lookup(before.entries(), k) },
        },
{
    match folder_structure_result {
        Some(folder_structure) => {
            folder_structure.insert(String::from_str(current_id), clone_strings(current_path));
        },
        None => {},
    }
}

/// The first position from `i` on where `s` holds `c`; -1 where there is none.
pub open spec fn index_from(s: Seq<char>, c: char, i: int) -> int
    decreases s.len() - i,
{
    if i < 0 || i >= s.len() {
        -1
    } else if s[i] == c {
        i
    } else {
        index_from(s, c, i + 1)
    }
}

/// A position that [`index_from`] finds lies at or after `i`, within `s`, and holds `c`.
proof fn lemma_index_from(s: Seq<char>, c: char, i: int)
    requires
        0 <= i,
    ensures
        index_from(s, c, i) == -1 || (i <= index_from(s, c, i) < s.len() && s[index_from(s, c, i)] == c),
    decreases s.len() - i,
{
    if i < s.len() && s[i] != c {
        lemma_index_from(s, c, i + 1);
    }
}

/// The parts of an id path `item/child/@attribute`: the item's element name, the child's
/// element name and the attribute's name. `None` where the path is not of that form.
pub open spec fn id_path_parts(path: Seq<char>) -> Option<(Seq<char>, Seq<char>, Seq<char>)> {
    let i = index_from(path, '/', 0);
    let j = index_from(path, '/', i + 1);
    if i < 0 || j < 0 || j + 1 >= path.len() || path[j + 1] != '@' {
        None
    } else {
        Some((path.subrange(0, i), path.subrange(i + 1, j), path.skip(j + 2)))
    }
}

/// A position in `s` from `from` on where it holds `c`, as [`index_from`] says.
fn find_char(s: &str, c: char, from: usize) -> (res: Option<usize>)
    requires
        from <= s@.len(),
    ensures
        match res {
            Some(k) => k as int == index_from(s@, c, from as int),
            None => index_from(s@, c, from as int) == -1,
        },
{
    let n = s.unicode_len();
    let mut k: usize = from;
    while k < n
        invariant
            n == s@.len(),
            from <= k <= n,
            index_from(s@, c, from as int) == index_from(s@, c, k as int),
        decreases n - k,
    {
        if s.get_char(k) == c {
            return Some(k);
        }
        k = k + 1;
    }
    None
}

/// Splits an id path into its parts, as [`id_path_parts`] says.
pub fn split_id_path(path: &str) -> (res: Option<(String, String, String)>)
    ensures
        match id_path_parts(path@) {
            Some((item, child, attribute)) => res matches Some(p) && p.0@ == item && p.1@ == child && p.2@ == attribute,
            None => res is None,
        },
{
    let n = path.unicode_len();
    let i = match find_char(path, '/', 0) {
        Some(i) => i,
        None => {
            return None;
        },
    };
    proof {
        lemma_index_from(path@, '/', 0);
    }
    let j = match find_char(path, '/', i + 1) {
        Some(j) => j,
        None => {
            return None;
        },
    };
    proof {
        lemma_index_from(path@, '/', i + 1);
    }
    if j + 1 >= n || path.get_char(j + 1) != '@' {
        return None;
    }
    let item = String::from_str(path.substring_char(0, i));
    let child = String::from_str(path.substring_char(i + 1, j));
    let attribute = String::from_str(path.substring_char(j + 2, n));
    assert(path@.subrange(j + 2, n as int) =~= path@.skip(j + 2));
    Some((item, child, attribute))
}

/// Reads an item's events from `pos` on, with `depth` elements open below the item: the value
/// of the attribute `attribute` of the first `<child>` directly inside the item (`None` where
/// that element lacks it, or where the item ends first).
pub open spec fn child_attribute(evs: Seq<EventView>, pos: int, depth: int, child: Seq<char>, attribute: Seq<char>) -> Option<Seq<char>>
    decreases evs.len() - pos,
{
    if pos < 0 || pos >= evs.len() {
        None
    } else {
        match evs[pos] {
            EventView::Start(name, attributes) => if depth == 1 && name == child {
                first_attribute(attributes, attribute)
            } else {
                child_attribute(evs, pos + 1, depth + 1, child, attribute)
            },
            EventView::End(_) => if depth <= 1 {
                None
            } else {
                child_attribute(evs, pos + 1, depth - 1, child, attribute)
            },
            _ => child_attribute(evs, pos + 1, depth, child, attribute),
        }
    }
}

/// The value that the id path `path` points to in the item whose start tag is at `start`: where
/// the path is `item/child/@attribute` and the item's element is `item`, the attribute of its
/// first direct `<child>`.
pub open spec fn path_value(evs: Seq<EventView>, start: int, path: Seq<char>) -> Option<Seq<char>> {
    match id_path_parts(path) {
        None => None,
        Some((item, child, attribute)) => if 0 <= start < evs.len() && (evs[start] matches EventView::Start(name, _) && name == item) {
            child_attribute(evs, start + 1, 1, child, attribute)
        } else {
            None
        },
    }
}

/// The value that `id_path` points to in the item whose start tag is at `start`, as
/// [`path_value`] says: the id by which a dependent catalog's item is filed.
pub fn item_path_value(events: &Vec<XmlEvent>, start: usize, id_path: &str) -> (res: Option<String>)
    ensures
        res.deep_view() == path_value(events.deep_view(), start as int, id_path@),
{
    let ghost evs = events.deep_view();
    let (item, child, attribute) = match split_id_path(id_path) {
        Some(parts) => parts,
        None => {
            return None;
        },
    };
    if start >= events.len() {
        return None;
    }
    assert(evs[start as int] == events@[start as int]@);
    match &events[start] {
        XmlEvent::Start { name, .. } => {
            if !str_eq(name.as_str(), item.as_str()) {
                return None;
            }
        },
        _ => {
            return None;
        },
    }
    let mut pos: usize = start + 1;
    let mut depth: usize = 1;
    while pos < events.len()
        invariant
            evs == events.deep_view(),
            start < pos <= events.len(),
            1 <= depth <= pos,
            path_value(evs, start as int, id_path@) == child_attribute(evs, start + 1, 1, child@, attribute@),
            child_attribute(evs, start + 1, 1, child@, attribute@) == child_attribute(evs, pos as int, depth as int, child@, attribute@),
        decreases events.len() - pos,
    {
        assert(evs[pos as int] == events@[pos as int]@);
        match &events[pos] {
            XmlEvent::Start { name, attributes } => {
                if depth == 1 && str_eq(name.as_str(), child.as_str()) {
                    return get_attribute(attributes, attribute.as_str());
                }
                depth = depth + 1;
            },
            XmlEvent::End { .. } => {
                if depth <= 1 {
                    return None;
                }
                depth = depth - 1;
            },
            _ => {},
        }
        pos = pos + 1;
    }
    None
}

/// The folder, relative to the catalog's output folder and written with `/`, that an item's file
/// goes to. A catalog that tracks its own folders uses the current folder path. A catalog that
/// depends on another one's folders looks up the id found in the item's file (`item_id`, read at
/// `id_path`); nothing is looked up where there is no such path or id.
pub open spec fn subfolder(
    folder_structure: Option<FolderStructure>,
    item_id: Option<Seq<char>>,
    id_path: Seq<char>,
    uses_folders: bool,
    current_path: Seq<Seq<char>>,
) -> Option<Seq<char>> {
    match folder_structure {
        None => if uses_folders && current_path.len() > 0 {
            Some(join_seq(current_path, "/"@))
        } else {
            None
        },
        Some(f) => if id_path.len() == 0 {
            None
        } else {
            match item_id {
                None => None,
                Some(id) => if f.path_for(id).len() == 0 {
                    None
                } else {
                    Some(join_seq(f.path_for(id), "/"@))
                },
            }
        },
    }
}

/// Decides the folder an item's file goes to, as [`subfolder`] says.
pub fn determine_subfolder_path(
    folder_structure: Option<&FolderStructure>,
    item_id: Option<&str>,
    id_path: &str,
    uses_folders: bool,
    current_path: &Vec<String>,
) -> (res: Option<String>)
    ensures
        res.deep_view() == subfolder(
            match folder_structure { Some(f) => Some(*f), None => None },
            match item_id { Some(i) => Some(i@), None => None },
            id_path@,
            uses_folders,
            current_path.deep_view(),
        ),
{
    match folder_structure {
        None => {
            if uses_folders && current_path.len() > 0 {
                Some(join(current_path, "/"))
            } else {
                None
            }
        },
        Some(f) => {
            if id_path.unicode_len() == 0 {
                return None;
            }
            match item_id {
                None => None,
                Some(id) => {
                    let path = f.get_path_for_id(id);
                    if path.len() == 0 {
                        None
                    } else {
                        Some(join(&path, "/"))
                    }
                },
            }
        },
    }
}

/// A folder path as the catalog gives it: the id and name of each folder, outermost first.
pub type FolderLevels = Seq<(Seq<char>, Seq<char>)>;

/// One thing to do with the events of a catalog, as mathematical values.
pub enum ActionView {
    /// The tag of the event at the given position goes to the skeleton, at the given depth below
    /// the catalog, as a child of the catalog or not, as a start or an end tag.
    Skeleton(int, bool, XmlEventType, int),
    /// The events from the first position up to (not including) the second go to the skeleton.
    Ancillary(int, int),
    /// The events from the first position (an item's start tag) up to (not including) the
    /// second go to a file of their own; with the item's id and its folders.
    Item(int, int, Seq<char>, FolderLevels),
}

/// One thing to do with the events of a catalog.
#[derive(Debug)]
pub enum CatalogAction {
    Skeleton { rel_depth: usize, is_child: bool, kind: XmlEventType, event: usize },
    Ancillary { start: usize, end: usize },
    Item { start: usize, end: usize, id: String, folders: Vec<(String, String)> },
}

impl View for CatalogAction {
    type V = ActionView;

    open spec fn view(&self) -> ActionView {
        match self {
            CatalogAction::Skeleton { rel_depth, is_child, kind, event } => ActionView::Skeleton(*rel_depth as int, *is_child, *kind, *event as int),
            CatalogAction::Ancillary { start, end } => ActionView::Ancillary(*start as int, *end as int),
            CatalogAction::Item { start, end, id, folders } => ActionView::Item(*start as int, *end as int, id@, folders.deep_view()),
        }
    }
}

impl DeepView for CatalogAction {
    type V = ActionView;

    open spec fn deep_view(&self) -> ActionView {
        self@
    }
}

/// How a catalog is read: the name of its items (as bytes), whether they are wrapped in an
/// `<ObjectList>`, whether it tracks folders, and whether nothing is to be left out.
pub struct WalkConfig {
    pub item_name: Seq<u8>,
    pub wrapped: bool,
    pub uses_folders: bool,
    pub lossless: bool,
}

/// What has been read of a catalog: the depth below it (1 for the catalog's own level), the
/// current folder path, the actions so far, and the items' folder paths stored so far (id and
/// path, in order).
pub struct WalkState {
    pub rel_depth: int,
    pub path: FolderLevels,
    pub actions: Seq<ActionView>,
    pub writes: Seq<(Seq<char>, FolderLevels)>,
}

/// The depth of a catalog's items below the catalog.
pub open spec fn target_depth(cfg: WalkConfig) -> int {
    if cfg.wrapped { 3 } else { 2 }
}

/// The state after an item from `start` up to `end` with id `id` and folder path `path`: the
/// item goes to a file, in lossless mode its end tag goes to the skeleton, and a catalog that
/// tracks folders stores the item's path.
pub open spec fn item_done(st: WalkState, cfg: WalkConfig, start: int, end: int, id: Seq<char>, path: FolderLevels, actions: Seq<ActionView>) -> WalkState {
    let with_item = actions.push(ActionView::Item(start, end, id, path));
    WalkState {
        rel_depth: st.rel_depth,
        path,
        actions: if cfg.lossless { with_item.push(ActionView::Skeleton(st.rel_depth, false, XmlEventType::End, start)) } else { with_item },
        writes: if cfg.uses_folders { st.writes.push((id, path)) } else { st.writes },
    }
}

/// Reads the rest of a catalog from `pos` on, up to its end tag or the first malformed piece.
/// A start tag goes to the skeleton where [`skeleton_start`] says so. An element at depth 2
/// that is neither the `<ObjectList>` (where items are wrapped) nor an item is ancillary: its
/// rest goes to the skeleton in lossless mode and is skipped otherwise. An item at its depth is
/// read whole: where folders are tracked its attributes ([`folder_fields`]) move the folder
/// path ([`next_path`]), and a folder, marker or separator is skipped unless in lossless mode;
/// every other item goes to a file ([`item_done`]). An end tag at depth 1 or 0 goes to the
/// skeleton in lossless mode. `None` where a folder name does not unescape.
pub open spec fn catalog_walk_scan(evs: Seq<EventView>, pos: int, cfg: WalkConfig, st: WalkState) -> Option<(WalkState, int)>
    decreases evs.len() - pos,
{
    if pos < 0 || pos >= evs.len() {
        Some((st, pos))
    } else {
        match evs[pos] {
            EventView::Malformed => Some((st, pos + 1)),
            EventView::Start(name, attributes) => {
                let d = st.rel_depth + 1;
                let actions = match skeleton_start(cfg.lossless, d, cfg.wrapped) {
                    Some(is_child) => st.actions.push(ActionView::Skeleton(d, is_child, XmlEventType::Start, pos)),
                    None => st.actions,
                };
                let expected = if cfg.wrapped { "ObjectList".spec_bytes() } else { cfg.item_name };
                let end = element_end(evs, pos + 1, 1);
                proof {
                    lemma_element_fold_bounds(evs, pos + 1, 1, (), no_steps());
                }
                if d == 2 && encode_utf8(name) != expected {
                    let kept = if cfg.lossless { actions.push(ActionView::Ancillary(pos + 1, end)) } else { actions };
                    catalog_walk_scan(evs, end, cfg, WalkState { actions: kept, ..st })
                } else if d != target_depth(cfg) || encode_utf8(name) != cfg.item_name {
                    catalog_walk_scan(evs, pos + 1, cfg, WalkState { rel_depth: d, actions, ..st })
                } else if cfg.uses_folders {
                    match folder_fields(attributes) {
                        None => None,
                        Some((id, folder_name, is_folder, is_marker, is_separator)) => {
                            let path = next_path(st.path, (id, folder_name), is_folder, is_marker);
                            if (is_folder || is_marker || is_separator) && !cfg.lossless {
                                catalog_walk_scan(evs, end, cfg, WalkState { path, actions, ..st })
                            } else {
                                catalog_walk_scan(evs, end, cfg, item_done(st, cfg, pos, end, id, path, actions))
                            }
                        },
                    }
                } else {
                    catalog_walk_scan(evs, end, cfg, item_done(st, cfg, pos, end, Seq::empty(), st.path, actions))
                }
            },
            EventView::End(_) => {
                let d = st.rel_depth - 1;
                let actions = if cfg.lossless && d <= 1 {
                    st.actions.push(ActionView::Skeleton(d, false, XmlEventType::End, pos))
                } else {
                    st.actions
                };
                if d <= 0 {
                    Some((WalkState { rel_depth: d, actions, ..st }, pos + 1))
                } else {
                    catalog_walk_scan(evs, pos + 1, cfg, WalkState { rel_depth: d, actions, ..st })
                }
            },
            _ => catalog_walk_scan(evs, pos + 1, cfg, st),
        }
    }
}


/// Whether an action sends events to a file of their own.
pub open spec fn is_item(a: ActionView) -> bool {
    a is Item
}

/// Where an item's events start (0 for other actions).
pub open spec fn item_start(a: ActionView) -> int {
    match a {
        ActionView::Item(start, _, _, _) => start,
        _ => 0,
    }
}

/// Where an item's events end (0 for other actions).
pub open spec fn item_end(a: ActionView) -> int {
    match a {
        ActionView::Item(_, end, _, _) => end,
        _ => 0,
    }
}

/// The items' event ranges are not empty, come in the order of the events and do not overlap.
pub open spec fn items_in_order(actions: Seq<ActionView>) -> bool {
    &&& forall|i: int| #![trigger is_item(actions[i])] 0 <= i < actions.len() && is_item(actions[i])
        ==> item_start(actions[i]) < item_end(actions[i])
    &&& forall|i: int, j: int| #![trigger is_item(actions[i]), is_item(actions[j])]
        0 <= i < j < actions.len() && is_item(actions[i]) && is_item(actions[j])
        ==> item_end(actions[i]) <= item_start(actions[j])
}

/// Every item's range ends at or before `pos`.
pub open spec fn items_before(actions: Seq<ActionView>, pos: int) -> bool {
    forall|i: int| #![trigger is_item(actions[i])] 0 <= i < actions.len() && is_item(actions[i])
        ==> item_end(actions[i]) <= pos
}

/// Adding an action that is not an item keeps the items as they were.
proof fn lemma_push_other(actions: Seq<ActionView>, a: ActionView, pos: int)
    requires
        items_in_order(actions),
        items_before(actions, pos),
        !is_item(a),
    ensures
        items_in_order(actions.push(a)),
        items_before(actions.push(a), pos),
{
    let all = actions.push(a);
    assert forall|i: int| #![trigger is_item(all[i])] 0 <= i < all.len() && is_item(all[i])
        implies item_start(all[i]) < item_end(all[i]) && item_end(all[i]) <= pos by {
        assert(all[i] == actions[i]);
    }
    assert forall|i: int, j: int| #![trigger is_item(all[i]), is_item(all[j])]
        0 <= i < j < all.len() && is_item(all[i]) && is_item(all[j])
        implies item_end(all[i]) <= item_start(all[j]) by {
        assert(all[i] == actions[i]);
        assert(all[j] == actions[j]);
    }
}

/// Adding an item that starts at or after every earlier item's end keeps the items in order.
proof fn lemma_push_item(actions: Seq<ActionView>, start: int, end: int, id: Seq<char>, path: FolderLevels, pos: int)
    requires
        items_in_order(actions),
        items_before(actions, start),
        start < end <= pos,
    ensures
        items_in_order(actions.push(ActionView::Item(start, end, id, path))),
        items_before(actions.push(ActionView::Item(start, end, id, path)), pos),
{
    let all = actions.push(ActionView::Item(start, end, id, path));
    assert forall|i: int| #![trigger is_item(all[i])] 0 <= i < all.len() && is_item(all[i])
        implies item_start(all[i]) < item_end(all[i]) && item_end(all[i]) <= pos by {
        if i < actions.len() {
            assert(all[i] == actions[i]);
        }
    }
    assert forall|i: int, j: int| #![trigger is_item(all[i]), is_item(all[j])]
        0 <= i < j < all.len() && is_item(all[i]) && is_item(all[j])
        implies item_end(all[i]) <= item_start(all[j]) by {
        assert(all[i] == actions[i]);
        if j < actions.len() {
            assert(all[j] == actions[j]);
        }
    }
}

/// Items are read in the order of the events, each up to its end, from `pos` on.
proof fn lemma_walk_items(evs: Seq<EventView>, pos: int, cfg: WalkConfig, st: WalkState)
    requires
        0 <= pos <= evs.len(),
        items_in_order(st.actions),
        items_before(st.actions, pos),
    ensures
        catalog_walk_scan(evs, pos, cfg, st) matches Some((r, end)) ==> items_in_order(r.actions) && pos <= end <= evs.len(),
    decreases evs.len() - pos,
{
    if pos < evs.len() {
        match evs[pos] {
            EventView::Malformed => {},
            EventView::Start(name, attributes) => {
                let d = st.rel_depth + 1;
                lemma_element_fold_bounds(evs, pos + 1, 1, (), no_steps());
                let end = element_end(evs, pos + 1, 1);
                let actions = match skeleton_start(cfg.lossless, d, cfg.wrapped) {
                    Some(is_child) => {
                        lemma_push_other(st.actions, ActionView::Skeleton(d, is_child, XmlEventType::Start, pos), pos);
                        st.actions.push(ActionView::Skeleton(d, is_child, XmlEventType::Start, pos))
                    },
                    None => st.actions,
                };
                let expected = if cfg.wrapped { "ObjectList".spec_bytes() } else { cfg.item_name };
                if d == 2 && encode_utf8(name) != expected {
                    let kept = if cfg.lossless {
                        lemma_push_other(actions, ActionView::Ancillary(pos + 1, end), pos);
                        actions.push(ActionView::Ancillary(pos + 1, end))
                    } else {
                        actions
                    };
                    lemma_walk_items(evs, end, cfg, WalkState { actions: kept, ..st });
                } else if d != target_depth(cfg) || encode_utf8(name) != cfg.item_name {
                    lemma_walk_items(evs, pos + 1, cfg, WalkState { rel_depth: d, actions, ..st });
                } else {
                    let (id, path, skip) = if cfg.uses_folders {
                        match folder_fields(attributes) {
                            None => (Seq::empty(), Seq::empty(), true),
                            Some((id, folder_name, is_folder, is_marker, is_separator)) => (
                                id,
                                next_path(st.path, (id, folder_name), is_folder, is_marker),
                                (is_folder || is_marker || is_separator) && !cfg.lossless,
                            ),
                        }
                    } else {
                        (Seq::empty(), st.path, false)
                    };
                    if cfg.uses_folders && folder_fields(attributes) is None {
                    } else if skip {
                        lemma_walk_items(evs, end, cfg, WalkState { path, actions, ..st });
                    } else {
                        lemma_push_item(actions, pos, end, id, path, end);
                        let with_item = actions.push(ActionView::Item(pos, end, id, path));
                        if cfg.lossless {
                            lemma_push_other(with_item, ActionView::Skeleton(st.rel_depth, false, XmlEventType::End, pos), end);
                        }
                        lemma_walk_items(evs, end, cfg, item_done(st, cfg, pos, end, id, path, actions));
                    }
                }
            },
            EventView::End(_) => {
                let d = st.rel_depth - 1;
                if cfg.lossless && d <= 1 {
                    lemma_push_other(st.actions, ActionView::Skeleton(d, false, XmlEventType::End, pos), pos + 1);
                }
                let actions = if cfg.lossless && d <= 1 {
                    st.actions.push(ActionView::Skeleton(d, false, XmlEventType::End, pos))
                } else {
                    st.actions
                };
                if d > 0 {
                    lemma_walk_items(evs, pos + 1, cfg, WalkState { rel_depth: d, actions, ..st });
                }
            },
            _ => lemma_walk_items(evs, pos + 1, cfg, st),
        }
    }
}

/// Each item of a catalog goes to its own file: the items' event ranges are not empty, come
/// in the order of the events and never overlap, so no event goes to two files.
pub proof fn law_catalog_items_do_not_overlap(evs: Seq<EventView>, pos: int, cfg: WalkConfig)
    requires
        0 <= pos <= evs.len(),
    ensures
        catalog_walk_scan(evs, pos, cfg, walk_start()) matches Some((st, end))
            ==> items_in_order(st.actions) && pos <= end <= evs.len(),
{
    lemma_walk_items(evs, pos, cfg, walk_start());
}

/// Nothing read of a catalog yet.
pub open spec fn walk_start() -> WalkState {
    WalkState { rel_depth: 1, path: Seq::empty(), actions: Seq::empty(), writes: Seq::empty() }
}

/// The settings of a catalog type as a [`WalkConfig`].
pub open spec fn walk_config(t: CatalogType, lossless: bool) -> WalkConfig {
    let (item_name, _, wrapped, uses_folders, _) = catalog_config(t);
    WalkConfig { item_name, wrapped, uses_folders, lossless }
}

/// What the exploding of a catalog amounts to: what to do with its events, in order, and,
/// where the catalog tracks folders, the folder path of each item by its id.
#[derive(Debug)]
pub struct CatalogPlan {
    pub actions: Vec<CatalogAction>,
    pub folder_items: Option<Vec<(String, Vec<(String, String)>)>>,
}

/// Whether `plan` is what reading a catalog gave: the actions of `st`, and, where folders are
/// tracked, each id's latest stored path.
pub open spec fn plan_matches(plan: CatalogPlan, cfg: WalkConfig, st: WalkState) -> bool {
    &&& plan.actions.deep_view() == st.actions
    &&& if cfg.uses_folders {
        plan.folder_items matches Some(items) && keys_unique(items.deep_view())
            && forall|id: Seq<char>| #[trigger] lookup(items.deep_view(), id) == latest(st.writes, id)
    } else {
        plan.folder_items is None
    }
}

/// Pushes an action, keeping the actions' view in step.
fn push_action(actions: &mut Vec<CatalogAction>, action: CatalogAction)
    ensures
        final(actions).deep_view() == old(actions).deep_view().push(action@),
{
    let ghost before = actions.deep_view();
    let ghost added = action@;
    actions.push(action);
    assert(actions.deep_view() =~= before.push(added));
}

/// Reads the catalog whose start tag was the last event read, as [`catalog_walk_scan`] says:
/// items named `item_name` (wrapped in an `<ObjectList>` or not), folders tracked or not,
/// lossless or not. `None` where a folder name does not unescape.
pub fn catalog_walk(reader: &mut XmlReader, item_name: &[u8], wrapped: bool, uses_folders: bool, lossless: bool) -> (res: Option<CatalogPlan>)
    ensures
        final(reader).events == old(reader).events,
        ({
            let cfg = WalkConfig { item_name: item_name@, wrapped, uses_folders, lossless };
            match catalog_walk_scan(old(reader).evs(), old(reader).pos as int, cfg, walk_start()) {
                Some((st, end)) => res matches Some(plan) && plan_matches(plan, cfg, st) && final(reader).pos == end,
                None => res is None,
            }
        }),
{
    let ghost evs = reader.evs();
    let ghost start = reader.pos as int;
    let ghost cfg = WalkConfig { item_name: item_name@, wrapped, uses_folders, lossless };
    let ghost mut writes: Seq<(Seq<char>, FolderLevels)> = Seq::empty();
    let mut rel_depth: u128 = 1;
    let mut path: Vec<(String, String)> = Vec::new();
    let mut actions: Vec<CatalogAction> = Vec::new();
    let mut items: Vec<(String, Vec<(String, String)>)> = Vec::new();
    let expected: &[u8] = if wrapped { "ObjectList".as_bytes() } else { item_name };
    let target: u128 = if wrapped { 3 } else { 2 };
    assert(actions.deep_view() =~= Seq::<ActionView>::empty());
    assert(path.deep_view() =~= Seq::<(Seq<char>, Seq<char>)>::empty());
    assert(items.deep_view() =~= Seq::<(Seq<char>, FolderLevels)>::empty());
    loop
        invariant_except_break
            1 <= rel_depth <= reader.pos + 1,
            catalog_walk_scan(evs, reader.pos as int, cfg, WalkState {
                rel_depth: rel_depth as int,
                path: path.deep_view(),
                actions: actions.deep_view(),
                writes,
            }) == catalog_walk_scan(evs, start, cfg, walk_start()),
        invariant
            reader.events == old(reader).events,
            evs == reader.evs(),
            start == old(reader).pos,
            cfg == (WalkConfig { item_name: item_name@, wrapped, uses_folders, lossless }),
            expected@ == if wrapped { "ObjectList".spec_bytes() } else { item_name@ },
            target as int == target_depth(cfg),
            keys_unique(items.deep_view()),
            forall|id: Seq<char>| #[trigger] lookup(items.deep_view(), id) == latest(writes, id),
            !uses_folders ==> writes.len() == 0,
        ensures
            catalog_walk_scan(evs, start, cfg, walk_start()) matches Some((st, end))
                && st.actions == actions.deep_view() && st.writes == writes && end == reader.pos,
        decreases evs.len() - reader.pos,
    {
        let ghost pos = reader.pos as int;
        match reader.read_event() {
            None => break,
            Some(event) => match event {
                XmlEvent::Malformed => break,
                XmlEvent::Start { name, attributes } => {
                    let d = rel_depth + 1;
                    let at = reader.pos - 1;
                    if lossless && (d == 2 || (wrapped && d == 3)) {
                        push_action(&mut actions, CatalogAction::Skeleton {
                            rel_depth: d as usize,
                            is_child: wrapped || d == 2,
                            kind: XmlEventType::Start,
                            event: at,
                        });
                    }
                    let name_bytes = name.as_str().as_bytes();
                    proof {
                        lemma_element_fold_bounds(evs, pos + 1, 1, (), no_steps());
                    }
                    if d == 2 && !bytes_eq(name_bytes, expected) {
                        skip_rest_of_element(reader);
                        if lossless {
                            push_action(&mut actions, CatalogAction::Ancillary { start: at + 1, end: reader.pos });
                        }
                    } else if d != target || !bytes_eq(name_bytes, item_name) {
                        rel_depth = d;
                    } else {
                        let mut id = String::new();
                        let mut skip = false;
                        if uses_folders {
                            match parse_folder_attributes_checked(attributes) {
                                None => {
                                    return None;
                                },
                                Some(f) => {
                                    let ghost before = path.deep_view();
                                    let ghost level = (f.id@, f.name@);
                                    if f.is_folder {
                                        path.push((String::from_str(f.id.as_str()), f.name));
                                        assert(path.deep_view() =~= before.push(level));
                                    }
                                    if f.is_marker {
                                        let ghost opened = path.deep_view();
                                        if path.len() > 0 {
                                            path.pop();
                                            assert(path.deep_view() =~= opened.drop_last());
                                        }
                                    }
                                    skip = (f.is_folder || f.is_marker || f.is_separator) && !lossless;
                                    id = f.id;
                                },
                            }
                        }
                        skip_rest_of_element(reader);
                        if !skip {
                            push_action(&mut actions, CatalogAction::Item {
                                start: at,
                                end: reader.pos,
                                id: String::from_str(id.as_str()),
                                folders: clone_attributes(&path),
                            });
                            if lossless {
                                push_action(&mut actions, CatalogAction::Skeleton {
                                    rel_depth: rel_depth as usize,
                                    is_child: false,
                                    kind: XmlEventType::End,
                                    event: at,
                                });
                            }
                            if uses_folders {
                                let ghost write = (id@, path.deep_view());
                                let ghost before = writes;
                                store_entry(&mut items, id, clone_attributes(&path));
                                proof {
                                    writes = writes.push(write);
                                    assert forall|k: Seq<char>| #[trigger] lookup(items.deep_view(), k) == latest(writes, k) by {
                                        assert(writes.drop_last() =~= before);
                                    }
                                }
                            }
                        }
                    }
                },
                XmlEvent::End { .. } => {
                    let d = rel_depth - 1;
                    if lossless && d <= 1 {
                        push_action(&mut actions, CatalogAction::Skeleton {
                            rel_depth: d as usize,
                            is_child: false,
                            kind: XmlEventType::End,
                            event: reader.pos - 1,
                        });
                    }
                    rel_depth = d;
                    if d == 0 {
                        break;
                    }
                },
                _ => {},
            },
        }
    }
    Some(CatalogPlan { actions, folder_items: if uses_folders { Some(items) } else { None } })
}

/// Why a catalog could not be exploded.
#[derive(Debug, Clone, Copy, PartialEq, Eq, Structural)]
pub enum CatalogError {
    /// The catalog's type is not known.
    TypeNotSpecified,
}

/// Whether the catalog read from `pos` on can be exploded as `catalog_type` says: its folder
/// names all unescape.
pub open spec fn catalog_readable(evs: Seq<EventView>, pos: int, catalog_type: Option<CatalogType>, lossless: bool) -> bool {
    match catalog_type {
        Some(t) => catalog_walk_scan(evs, pos, walk_config(t, lossless), walk_start()) is Some,
        None => true,
    }
}

/// Explodes the catalog whose start tag was the last event read: what to do with each of its
/// events, and, for a catalog that tracks folders, each item's folder path. An error where the
/// catalog's type is not known.
pub fn xml_explode_catalog(reader: &mut XmlReader, catalog_type: Option<CatalogType>, lossless: bool) -> (res: Result<CatalogPlan, CatalogError>)
    requires
        catalog_readable(old(reader).evs(), old(reader).pos as int, catalog_type, lossless),
    ensures
        final(reader).events == old(reader).events,
        match catalog_type {
            None => res == Err::<CatalogPlan, CatalogError>(CatalogError::TypeNotSpecified) && final(reader).pos == old(reader).pos,
            Some(t) => catalog_walk_scan(old(reader).evs(), old(reader).pos as int, walk_config(t, lossless), walk_start())
                matches Some((st, end)) && res matches Ok(plan) && plan_matches(plan, walk_config(t, lossless), st)
                && final(reader).pos == end,
        },
{
    match catalog_type {
        None => Err(CatalogError::TypeNotSpecified),
        Some(t) => {
            let config = t.get_config();
            match catalog_walk(reader, config.catalog_item_name, config.wrapped_in_object_list, config.uses_folders, lossless) {
                Some(plan) => Ok(plan),
                None => {
                    assert(false);
                    Err(CatalogError::TypeNotSpecified)
                },
            }
        },
    }
}

/// Explodes the catalog whose start tag was the last event read where its folder names all
/// unescape; `Ok(None)`, with the reader where it was, where one does not.
pub fn xml_explode_catalog_checked(reader: &mut XmlReader, catalog_type: Option<CatalogType>, lossless: bool) -> (res: Result<Option<CatalogPlan>, CatalogError>)
    ensures
        final(reader).events == old(reader).events,
        match catalog_type {
            None => res == Err::<Option<CatalogPlan>, CatalogError>(CatalogError::TypeNotSpecified),
            Some(t) => match catalog_walk_scan(old(reader).evs(), old(reader).pos as int, walk_config(t, lossless), walk_start()) {
                Some((st, end)) => res matches Ok(Some(plan)) && plan_matches(plan, walk_config(t, lossless), st) && final(reader).pos == end,
                None => res matches Ok(None) && final(reader).pos == old(reader).pos,
            },
        },
{
    match catalog_type {
        None => Err(CatalogError::TypeNotSpecified),
        Some(t) => {
            let mut trial = XmlReader { events: reader.events, pos: reader.pos };
            let config = t.get_config();
            match catalog_walk(&mut trial, config.catalog_item_name, config.wrapped_in_object_list, config.uses_folders, lossless) {
                None => Ok(None),
                Some(_) => match xml_explode_catalog(reader, catalog_type, lossless) {
                    Ok(plan) => Ok(Some(plan)),
                    Err(e) => Err(e),
                },
            }
        },
    }
}

} // verus!
