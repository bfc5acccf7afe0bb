use vstd::prelude::*;

use crate::xml::{element_end, event_attribute, event_get_attribute, skip_rest_of_element, unescape, xml_unescaped, EventView, XmlEvent, XmlReader};

verus! {

/// A text parameter.
#[derive(Debug)]
pub struct Text {
    pub text: Option<String>,
}

/// Whether the `value` of the start tag `e`, where it has one, unescapes.
pub open spec fn text_value_unescapes(e: EventView) -> bool {
    match event_attribute(e, "value"@) {
        Some(raw) => xml_unescaped(raw) is Some,
        None => true,
    }
}

/// The unescaped `value` of the start tag `e`.
pub open spec fn text_value(e: EventView) -> Option<Seq<char>> {
    match event_attribute(e, "value"@) {
        Some(raw) => xml_unescaped(raw),
        None => None,
    }
}

impl Text {
    /// Reads a `Text` element whose start tag `e` was the last event read: its unescaped `value`.
    pub fn from_xml(reader: &mut XmlReader, e: &XmlEvent) -> (item: Text)
        requires
            text_value_unescapes(e@),
        ensures
            final(reader).events == old(reader).events,
            final(reader).pos == element_end(old(reader).evs(), old(reader).pos as int, 1),
            item.text.deep_view() == text_value(e@),
    {
        let text = match event_get_attribute(e, "value") {
            Some(raw) => unescape(raw.as_str()),
            None => None,
        };
        let item = Text { text };
        skip_rest_of_element(reader);
        item
    }

    /// Reads a `Text` element as [`Text::from_xml`] does; `None`, with the reader left where it
    /// was, where its `value` does not unescape.
    pub fn from_xml_checked(reader: &mut XmlReader, e: &XmlEvent) -> (res: Option<Text>)
        ensures
            final(reader).events == old(reader).events,
            text_value_unescapes(e@) ==> (res matches Some(item) && item.text.deep_view() == text_value(e@)
                && final(reader).pos == element_end(old(reader).evs(), old(reader).pos as int, 1)),
            !text_value_unescapes(e@) ==> res is None && final(reader).pos == old(reader).pos,
    {
        let ok = match event_get_attribute(e, "value") {
            Some(raw) => unescape(raw.as_str()).is_some(),
            None => true,
        };
        if ok {
            Some(Self::from_xml(reader, e))
        } else {
            None
        }
    }

    /// The text.
    pub fn display(self) -> (res: Option<String>)
        ensures
            res == self.text,
    {
        self.text
    }
}

} // verus!
