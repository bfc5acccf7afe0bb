//! What goes into the written files: events written back as XML text, and file names.
use vstd::prelude::*;
use vstd::string::*;

use crate::relationship_catalog::RelationshipInfo;
use crate::text::{concat3, replace, replace_all};
use crate::xml::{EventView, XmlEvent};

verus! {

/// Attributes written as ` key="value"` each, in order; values stay as they were read.
pub open spec fn attributes_xml(attributes: Seq<(Seq<char>, Seq<char>)>) -> Seq<char>
    decreases attributes.len(),
{
    if attributes.len() == 0 {
        Seq::empty()
    } else {
        attributes_xml(attributes.drop_last()) + " "@ + attributes.last().0 + "=\""@ + attributes.last().1 + "\""@
    }
}

/// An event written as XML: a start tag with its attributes, an end tag, the text, a CDATA
/// section or a comment; nothing for other events.
pub open spec fn event_xml(event: EventView) -> Seq<char> {
    match event {
        EventView::Start(name, attributes) => "<"@ + name + attributes_xml(attributes) + ">"@,
        EventView::End(name) => "</"@ + name + ">"@,
        EventView::Text(content) => content,
        EventView::CData(content) => "<![CDATA["@ + content + "]]>"@,
        EventView::Comment(content) => "<!--"@ + content + "-->"@,
        _ => Seq::empty(),
    }
}

/// Events written as XML, one after the other.
pub open spec fn events_xml(evs: Seq<EventView>) -> Seq<char>
    decreases evs.len(),
{
    if evs.len() == 0 {
        Seq::empty()
    } else {
        events_xml(evs.drop_last()) + event_xml(evs.last())
    }
}

/// The attributes of a start tag written as XML.
pub fn attributes_to_xml(attributes: &Vec<(String, String)>) -> (res: String)
    ensures
        res@ == attributes_xml(attributes.deep_view()),
{
    let ghost all = attributes.deep_view();
    let mut out = String::new();
    let mut i: usize = 0;
    assert(all.take(0) =~= Seq::<(Seq<char>, Seq<char>)>::empty());
    while i < attributes.len()
        invariant
            all == attributes.deep_view(),
            i <= attributes.len(),
            out@ == attributes_xml(all.take(i as int)),
        decreases attributes.len() - i,
    {
        assert(all.take(i + 1).drop_last() =~= all.take(i as int));
        assert(all[i as int] == attributes@[i as int].deep_view());
        out.append(" ");
        out.append(attributes[i].0.as_str());
        out.append("=\"");
        out.append(attributes[i].1.as_str());
        out.append("\"");
        i = i + 1;
    }
    assert(all.take(i as int) =~= all);
    out
}

/// An event written as XML, as [`event_xml`] says.
pub fn event_to_xml(event: &XmlEvent) -> (res: String)
    ensures
        res@ == event_xml(event@),
{
    match event {
        XmlEvent::Start { name, attributes } => {
            let mut out = concat3("<", name.as_str(), attributes_to_xml(attributes).as_str());
            out.append(">");
            out
        },
        XmlEvent::End { name } => concat3("</", name.as_str(), ">"),
        XmlEvent::Text { content } => content.clone(),
        XmlEvent::CData { content } => concat3("<![CDATA[", content.as_str(), "]]>"),
        XmlEvent::Comment { content } => concat3("<!--", content.as_str(), "-->"),
        _ => {
            let out = String::new();
            proof {
                reveal_strlit("");
            }
            out
        },
    }
}

/// The events from `start` up to (not including) `end` written as XML.
pub fn events_to_xml(events: &Vec<XmlEvent>, start: usize, end: usize) -> (res: String)
    requires
        start <= end <= events@.len(),
    ensures
        res@ == events_xml(events.deep_view().subrange(start as int, end as int)),
{
    let ghost all = events.deep_view();
    let mut out = String::new();
    let mut i: usize = start;
    assert(all.subrange(start as int, start as int) =~= Seq::<EventView>::empty());
    while i < end
        invariant
            all == events.deep_view(),
            start <= i <= end <= events@.len(),
            out@ == events_xml(all.subrange(start as int, i as int)),
        decreases end - i,
    {
        assert(all.subrange(start as int, i + 1).drop_last() =~= all.subrange(start as int, i as int));
        assert(all[i as int] == events@[i as int]@);
        out.append(event_to_xml(&events[i]).as_str());
        i = i + 1;
    }
    out
}

/// The end tag that closes the element a start event opens (nothing for other events).
pub open spec fn closing_tag(event: EventView) -> Seq<char> {
    match event {
        EventView::Start(name, _) => "</"@ + name + ">"@,
        _ => Seq::empty(),
    }
}

/// The end tag that closes the element `event` opens.
pub fn closing_tag_of(event: &XmlEvent) -> (res: String)
    ensures
        res@ == closing_tag(event@),
{
    match event {
        XmlEvent::Start { name, .. } => concat3("</", name.as_str(), ">"),
        _ => String::new(),
    }
}

/// Whether a character cannot stand in a file name: a path separator or a character that
/// file systems reserve.
pub open spec fn is_reserved(c: char) -> bool {
    c == '/' || c == '\\' || c == ':' || c == '*' || c == '?' || c == '"' || c == '<' || c == '>' || c == '|'
}

/// A name with each reserved character replaced by `_`.
pub open spec fn escaped_name(name: Seq<char>) -> Seq<char> {
    name.map_values(|c: char| if is_reserved(c) { '_' } else { c })
}

/// A name that can stand in a path, as [`escaped_name`] says.
pub fn escape_name(name: &str) -> (res: String)
    ensures
        res@ == escaped_name(name@),
{
    proof {
        reveal_strlit("_");
    }
    let n = name.unicode_len();
    let mut out = String::new();
    let mut i: usize = 0;
    while i < n
        invariant
            n == name@.len(),
            i <= n,
            "_"@ == seq!['_'],
            out@ == escaped_name(name@.take(i as int)),
        decreases n - i,
    {
        let c = name.get_char(i);
        let ghost before = out@;
        if c == '/' || c == '\\' || c == ':' || c == '*' || c == '?' || c == '"' || c == '<' || c == '>' || c == '|' {
            out.append("_");
        } else {
            out.append(name.substring_char(i, i + 1));
            assert(name@.subrange(i as int, i + 1) =~= seq![c]);
        }
        assert(escaped_name(name@.take(i + 1)) =~= escaped_name(name@.take(i as int)).push(if is_reserved(c) { '_' } else { c }));
        i = i + 1;
    }
    assert(name@.take(i as int) =~= name@);
    out
}

/// The label of an item's file or folder: its id and its name, joined by ` - `, escaped.
pub open spec fn item_label(id: Seq<char>, name: Seq<char>) -> Seq<char> {
    escaped_name(id + " - "@ + name)
}

/// The label of an item's file or folder, as [`item_label`] says.
pub fn file_label(id: &str, name: &str) -> (res: String)
    ensures
        res@ == item_label(id@, name@),
{
    let joined = concat3(id, " - ", name);
    escape_name(joined.as_str())
}

/// The name (without extension) of a relationship's file: the label of its id and its tables
/// `[left] - [right]`, with each `.` replaced by `_`.
pub open spec fn relationship_file(id: Seq<char>, left: Seq<char>, right: Seq<char>) -> Seq<char> {
    replace_all(item_label(id, "["@ + left + "] - ["@ + right + "]"@), "."@, "_"@)
}

/// The name (without extension) of a relationship's file, as [`relationship_file`] says.
pub fn relationship_file_name(relationship: &RelationshipInfo) -> (res: String)
    ensures
        res@ == relationship_file(relationship.id@, relationship.left@, relationship.right@),
{
    proof {
        reveal_strlit(".");
    }
    let mut tables = concat3("[", relationship.left.as_str(), "] - [");
    tables.append(relationship.right.as_str());
    tables.append("]");
    let label = file_label(relationship.id.as_str(), tables.as_str());
    replace(label.as_str(), ".", "_")
}

} // verus!
