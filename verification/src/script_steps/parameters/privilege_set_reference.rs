use vstd::prelude::*;

use crate::text::str_eq;
use crate::xml::{element_fold, parse_unescaped_attribute, unescaped_attribute, EventView, XmlEvent, XmlReader};

verus! {

/// A reference to a privilege set.
#[derive(Debug)]
pub struct PrivilegeSetReference {
    pub name: Option<String>,
}

/// What reading an event does: a `<PrivilegeSetReference>` start tag sets the name to its
/// unescaped `name`.
pub open spec fn privilege_set_step(name: Option<Seq<char>>, event: EventView) -> Option<Seq<char>> {
    match event {
        EventView::Start(tag, attributes) if tag == "PrivilegeSetReference"@ => unescaped_attribute(attributes, "name"@),
        _ => name,
    }
}

/// [`privilege_set_step`] as a function value.
pub open spec fn privilege_set_steps() -> spec_fn(Option<Seq<char>>, EventView) -> Option<Seq<char>> {
    |n: Option<Seq<char>>, e: EventView| privilege_set_step(n, e)
}

/// The name and end position of the privilege set parameter whose content starts at `pos`.
pub open spec fn privilege_set_scan(evs: Seq<EventView>, pos: int) -> (Option<Seq<char>>, int) {
    element_fold(evs, pos, 1, None, privilege_set_steps())
}

impl PrivilegeSetReference {
    /// Reads a privilege set parameter whose start tag was the last event read.
    pub fn from_xml(reader: &mut XmlReader, _e: &XmlEvent) -> (item: PrivilegeSetReference)
        ensures
            final(reader).events == old(reader).events,
            (item.name.deep_view(), final(reader).pos as int) == privilege_set_scan(old(reader).evs(), old(reader).pos as int),
    {
        let ghost evs = reader.evs();
        let ghost start = reader.pos as int;
        let mut depth: u128 = 1;
        let mut item = PrivilegeSetReference { name: None };
        loop
            invariant_except_break
                1 <= depth <= reader.pos + 1,
                element_fold(evs, reader.pos as int, depth as int, item.name.deep_view(), privilege_set_steps())
                    == privilege_set_scan(evs, start),
            invariant
                reader.events == old(reader).events,
                evs == reader.evs(),
            ensures
                (item.name.deep_view(), reader.pos as int) == privilege_set_scan(evs, start),
            decreases evs.len() - reader.pos,
        {
            match reader.read_event() {
                None => break,
                Some(XmlEvent::Start { name, attributes }) => {
                    depth = depth + 1;
                    if str_eq(name.as_str(), "PrivilegeSetReference") {
                        item.name = parse_unescaped_attribute(attributes, "name");
                    }
                },
                Some(XmlEvent::End { .. }) => {
                    depth = depth - 1;
                    if depth == 0 {
                        break;
                    }
                },
                Some(_) => {},
            }
        }
        item
    }

    /// The privilege set's name.
    pub fn display(self) -> (res: Option<String>)
        ensures
            res == self.name,
    {
        self.name
    }
}

} // verus!
