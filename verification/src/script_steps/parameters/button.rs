use vstd::prelude::*;

use crate::text::{concat3, str_eq};
use crate::xml::{element_fold, event_attribute, event_get_attribute, first_attribute, get_attribute, EventView, XmlEvent, XmlReader};

verus! {

/// A button of a custom dialog: its label and whether it commits.
#[derive(Debug)]
pub struct Button {
    pub label: Option<String>,
    pub commit: bool,
}

/// The label, the commit flag, and whether the reader is inside a `<Text>` element.
pub type ButtonFields = (Option<Seq<char>>, bool, bool);

/// What reading an event does: `<Text>` opens the label text, `</Text>` closes it; a non-empty
/// CDATA section inside it becomes the label where there is none yet; a `<Boolean>` with a
/// `value` sets the commit flag to whether that is `True`.
pub open spec fn button_step(fields: ButtonFields, event: EventView) -> ButtonFields {
    let (label, commit, in_text) = fields;
    match event {
        EventView::Start(name, attributes) => if name == "Text"@ {
            (label, commit, true)
        } else if name == "Boolean"@ {
            match first_attribute(attributes, "value"@) {
                Some(v) => (label, v == "True"@, in_text),
                None => fields,
            }
        } else {
            fields
        },
        EventView::CData(content) => if in_text && label is None && content.len() > 0 {
            (Some(content), commit, in_text)
        } else {
            fields
        },
        EventView::End(name) => if name == "Text"@ {
            (label, commit, false)
        } else {
            fields
        },
        _ => fields,
    }
}

/// [`button_step`] as a function value.
pub open spec fn button_steps() -> spec_fn(ButtonFields, EventView) -> ButtonFields {
    |f: ButtonFields, e: EventView| button_step(f, e)
}

/// The label, commit flag and end position of the button opened by `e` whose content starts at `pos`.
pub open spec fn button_scan(evs: Seq<EventView>, pos: int, e: EventView) -> (Option<Seq<char>>, bool, int) {
    let (fields, end) = element_fold(evs, pos, 1, (event_attribute(e, "value"@), false, false), button_steps());
    (fields.0, fields.1, end)
}

/// The name under which a button parameter is shown.
pub open spec fn button_name(button_type: Seq<char>) -> Seq<char> {
    if button_type == "Button1"@ {
        "Default Button"@
    } else if button_type == "Button2"@ {
        "Button 2"@
    } else if button_type == "Button3"@ {
        "Button 3"@
    } else {
        button_type
    }
}

/// A button with a non-empty label is shown as `name: label`.
pub open spec fn button_display(label: Option<Seq<char>>, button_type: Seq<char>) -> Option<Seq<char>> {
    match label {
        Some(l) => if l.len() > 0 {
            Some(button_name(button_type) + ": "@ + l)
        } else {
            None
        },
        None => None,
    }
}

impl Button {
    /// Reads a button parameter whose start tag `e` was the last event read.
    pub fn from_xml(reader: &mut XmlReader, e: &XmlEvent) -> (item: Button)
        ensures
            final(reader).events == old(reader).events,
            (item.label.deep_view(), item.commit, final(reader).pos as int) == button_scan(old(reader).evs(), old(reader).pos as int, e@),
    {
        let ghost evs = reader.evs();
        let ghost start = reader.pos as int;
        let mut label = event_get_attribute(e, "value");
        let mut commit = false;
        let mut in_text = false;
        let mut depth: u128 = 1;
        loop
            invariant_except_break
                1 <= depth <= reader.pos + 1,
                element_fold(evs, reader.pos as int, depth as int, (label.deep_view(), commit, in_text), button_steps())
                    == element_fold(evs, start, 1, (event_attribute(e@, "value"@), false, false), button_steps()),
            invariant
                reader.events == old(reader).events,
                evs == reader.evs(),
            ensures
                (label.deep_view(), commit, reader.pos as int) == button_scan(evs, start, e@),
            decreases evs.len() - reader.pos,
        {
            match reader.read_event() {
                None => break,
                Some(XmlEvent::Start { name, attributes }) => {
                    depth = depth + 1;
                    if str_eq(name.as_str(), "Text") {
                        in_text = true;
                    } else if str_eq(name.as_str(), "Boolean") {
                        if let Some(v) = get_attribute(attributes, "value") {
                            commit = str_eq(v.as_str(), "True");
                        }
                    }
                },
                Some(XmlEvent::CData { content }) => {
                    if in_text && label.is_none() && content.unicode_len() > 0 {
                        label = Some(content.clone());
                    }
                },
                Some(XmlEvent::End { name }) => {
                    if str_eq(name.as_str(), "Text") {
                        in_text = false;
                    }
                    depth = depth - 1;
                    if depth == 0 {
                        break;
                    }
                },
                Some(_) => {},
            }
        }
        Button { label, commit }
    }

    /// The button as `name: label`, where it has a label.
    pub fn display(&self, button_type: &str) -> (res: Option<String>)
        ensures
            res.deep_view() == button_display(self.label.deep_view(), button_type@),
    {
        let label = match &self.label {
            Some(l) => l,
            None => {
                return None;
            },
        };
        if label.unicode_len() == 0 {
            return None;
        }
        let name: &str = if str_eq(button_type, "Button1") {
            "Default Button"
        } else if str_eq(button_type, "Button2") {
            "Button 2"
        } else if str_eq(button_type, "Button3") {
            "Button 3"
        } else {
            button_type
        };
        Some(concat3(name, ": ", label.as_str()))
    }
}

} // verus!
