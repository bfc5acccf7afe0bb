use vstd::prelude::*;

use crate::text::concat;
use crate::xml::{element_end, event_attribute, event_get_attribute, skip_rest_of_element, XmlEvent, XmlReader};

verus! {

/// A window style parameter.
#[derive(Debug)]
pub struct Style {
    pub style: Option<String>,
}

impl Style {
    /// Reads a `Style` element whose start tag `e` was the last event read: its `name`.
    pub fn from_xml(reader: &mut XmlReader, e: &XmlEvent) -> (item: Style)
        ensures
            final(reader).events == old(reader).events,
            final(reader).pos == element_end(old(reader).evs(), old(reader).pos as int, 1),
            item.style.deep_view() == event_attribute(e@, "name"@),
    {
        let item = Style { style: event_get_attribute(e, "name") };
        skip_rest_of_element(reader);
        item
    }

    /// `Style: <name>`.
    pub fn display(self) -> (res: Option<String>)
        ensures
            res.deep_view() == match self.style {
                Some(s) => Some("Style: "@ + s@),
                None => None::<Seq<char>>,
            },
    {
        match self.style {
            Some(s) => Some(concat("Style: ", s.as_str())),
            None => None,
        }
    }
}

} // verus!
