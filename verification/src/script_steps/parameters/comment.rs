use vstd::prelude::*;

use crate::text::str_eq;
use crate::xml::{element_fold, first_attribute, get_attribute, unescape, xml_unescaped, EventView, XmlEvent, XmlReader};

verus! {

/// A comment parameter.
#[derive(Debug)]
pub struct Comment {}

/// What reading an event does to the raw comment: a `<Comment>` start tag sets it to its
/// `value` (empty without one).
pub open spec fn comment_step(raw: Seq<char>, event: EventView) -> Seq<char> {
    match event {
        EventView::Start(name, attributes) if name == "Comment"@ => match first_attribute(attributes, "value"@) {
            Some(value) => value,
            None => Seq::empty(),
        },
        _ => raw,
    }
}

/// [`comment_step`] as a function value.
pub open spec fn comment_steps() -> spec_fn(Seq<char>, EventView) -> Seq<char> {
    |r: Seq<char>, e: EventView| comment_step(r, e)
}

/// The raw (still escaped) comment and end position of the comment parameter whose content
/// starts at `pos`.
pub open spec fn comment_scan(evs: Seq<EventView>, pos: int) -> (Seq<char>, int) {
    element_fold(evs, pos, 1, Seq::empty(), comment_steps())
}

impl Comment {
    /// Reads the raw comment of a comment parameter whose start tag was the last event read.
    pub fn raw_from_xml(reader: &mut XmlReader, _e: &XmlEvent) -> (raw: String)
        ensures
            final(reader).events == old(reader).events,
            (raw@, final(reader).pos as int) == comment_scan(old(reader).evs(), old(reader).pos as int),
    {
        let ghost evs = reader.evs();
        let ghost start = reader.pos as int;
        let mut depth: u128 = 1;
        let mut comment = String::new();
        loop
            invariant_except_break
                1 <= depth <= reader.pos + 1,
                element_fold(evs, reader.pos as int, depth as int, comment@, comment_steps()) == comment_scan(evs, start),
            invariant
                reader.events == old(reader).events,
                evs == reader.evs(),
            ensures
                (comment@, reader.pos as int) == comment_scan(evs, start),
            decreases evs.len() - reader.pos,
        {
            match reader.read_event() {
                None => break,
                Some(XmlEvent::Start { name, attributes }) => {
                    depth = depth + 1;
                    if str_eq(name.as_str(), "Comment") {
                        comment = match get_attribute(attributes, "value") {
                            Some(value) => value,
                            None => String::new(),
                        };
                    }
                },
                Some(XmlEvent::End { .. }) => {
                    depth = depth - 1;
                    if depth == 0 {
                        break;
                    }
                },
                Some(_) => {},
            }
        }
        comment
    }

    /// Reads a comment parameter whose start tag was the last event read, and unescapes it.
    pub fn from_xml(reader: &mut XmlReader, e: &XmlEvent) -> (res: Result<String, String>)
        requires
            xml_unescaped(comment_scan(old(reader).evs(), old(reader).pos as int).0) is Some,
        ensures
            final(reader).events == old(reader).events,
            final(reader).pos == comment_scan(old(reader).evs(), old(reader).pos as int).1,
            res matches Ok(comment) && Some(comment@) == xml_unescaped(comment_scan(old(reader).evs(), old(reader).pos as int).0),
    {
        let raw = Self::raw_from_xml(reader, e);
        match unescape(raw.as_str()) {
            Some(comment) => Ok(comment),
            None => Ok(String::new()),
        }
    }

    /// Reads a comment parameter as [`Comment::from_xml`] does; `None`, with the reader left
    /// where it was, where the comment does not unescape.
    pub fn from_xml_checked(reader: &mut XmlReader, e: &XmlEvent) -> (res: Option<String>)
        ensures
            final(reader).events == old(reader).events,
            match xml_unescaped(comment_scan(old(reader).evs(), old(reader).pos as int).0) {
                Some(comment) => res.deep_view() == Some(comment)
                    && final(reader).pos == comment_scan(old(reader).evs(), old(reader).pos as int).1,
                None => res is None && final(reader).pos == old(reader).pos,
            },
    {
        let start = reader.pos;
        let raw = Self::raw_from_xml(reader, e);
        reader.pos = start;
        match unescape(raw.as_str()) {
            Some(_) => match Self::from_xml(reader, e) {
                Ok(comment) => Some(comment),
                Err(_) => None,
            },
            None => None,
        }
    }
}

} // verus!
