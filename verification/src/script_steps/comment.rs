//! The comment step: `# text`.
use vstd::prelude::*;

use crate::script_steps::step_scan::{calc_scan, keep, never};
use crate::text::{concat, str_eq, string_of};
use crate::xml::{first_attribute, get_attribute, parse_events, unescape, xml_events, xml_unescaped, Attributes, EventView, XmlEvent, XmlReader};

verus! {

/// A `<Step>` tag with a name sets the step name; a `<Comment>` tag sets the raw comment to its
/// `value` (empty without one).
pub open spec fn comment_start() -> spec_fn((Seq<char>, Seq<char>), Seq<char>, Attributes) -> Option<(Seq<char>, Seq<char>)> {
    |f: (Seq<char>, Seq<char>), name: Seq<char>, a: Attributes| if name == "Step"@ {
        match first_attribute(a, "name"@) {
            Some(n) => Some((n, f.1)),
            None => Some(f),
        }
    } else if name == "Comment"@ {
        Some((f.0, match first_attribute(a, "value"@) {
            Some(v) => v,
            None => Seq::empty(),
        }))
    } else {
        Some(f)
    }
}

/// The line of a comment step: `# text` with the comment unescaped, empty without a comment;
/// no line without a step name; `None` (as the outer value) where the comment does not unescape.
pub open spec fn comment_outcome(evs: Seq<EventView>) -> Option<Option<Seq<char>>> {
    match calc_scan(evs, 0, (Seq::empty(), Seq::empty()), never(), keep(), comment_start()) {
        Some((name, comment)) => if name.len() == 0 {
            Some(None)
        } else if comment.len() == 0 {
            Some(Some(Seq::empty()))
        } else {
            match xml_unescaped(comment) {
                Some(text) => Some(Some("# "@ + text)),
                None => None,
            }
        },
        None => None,
    }
}

/// The line of a comment step read from its events.
pub fn comment_line(events: &Vec<XmlEvent>) -> (res: Option<Option<String>>)
    ensures
        res.deep_view() == comment_outcome(events.deep_view()),
{
    let ghost evs = events.deep_view();
    let mut reader = XmlReader::new(events);
    let mut name = String::new();
    let mut comment = String::new();
    loop
        invariant
            reader.events == events,
            evs == reader.evs(),
            reader.pos <= evs.len(),
            calc_scan(evs, reader.pos as int, (name@, comment@), never(), keep(), comment_start())
                == calc_scan(evs, 0, (Seq::empty(), Seq::empty()), never(), keep(), comment_start()),
        ensures
            reader.pos >= evs.len(),
        decreases evs.len() - reader.pos,
    {
        match reader.read_event() {
            None => break,
            Some(event) => match event {
                XmlEvent::Start { name: tag, attributes } => {
                    if str_eq(tag.as_str(), "Step") {
                        if let Some(n) = get_attribute(attributes, "name") {
                            name = n;
                        }
                    } else if str_eq(tag.as_str(), "Comment") {
                        comment = match get_attribute(attributes, "value") {
                            Some(v) => v,
                            None => String::new(),
                        };
                    }
                },
                _ => {},
            },
        }
    }
    proof {
        reveal_strlit("");
    }
    if name.unicode_len() == 0 {
        Some(None)
    } else if comment.unicode_len() == 0 {
        Some(Some(string_of("")))
    } else {
        match unescape(comment.as_str()) {
            Some(text) => Some(Some(concat("# ", text.as_str()))),
            None => None,
        }
    }
}

/// Whether the comment step `step` can be shown: its comment unescapes.
pub open spec fn comment_readable(step: Seq<char>) -> bool {
    comment_outcome(xml_events(step)) is Some
}

/// The line of the comment step whose XML is `step`.
pub fn sanitize(step: &str) -> (res: Option<String>)
    requires
        comment_readable(step@),
    ensures
        Some(res.deep_view()) == comment_outcome(xml_events(step@)),
{
    let events = parse_events(step);
    match comment_line(&events) {
        Some(line) => line,
        None => None,
    }
}

/// The line of the comment step whose XML is `step`, as [`sanitize`] gives it; `None` where the
/// comment does not unescape.
pub fn sanitize_checked(step: &str) -> (res: Option<Option<String>>)
    ensures
        res.deep_view() == comment_outcome(xml_events(step@)),
{
    let events = parse_events(step);
    match comment_line(&events) {
        Some(_) => Some(sanitize(step)),
        None => None,
    }
}

} // verus!
