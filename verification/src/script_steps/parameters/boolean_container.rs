use vstd::prelude::*;

use crate::script_steps::parameters::boolean::{on_off_text, Boolean};
use crate::text::{concat3, replace, replace_all, str_eq};
use crate::xml::{local_name, local_part, element_fold, event_name, get_event_name, EventView, XmlEvent, XmlReader};

verus! {

/// A window option whose element holds `True` or `False` as text.
#[derive(Debug)]
pub struct BooleanContainer {
    pub name: String,
    pub value: Option<bool>,
}

/// What reading an event does: the text `True` or `False` sets the value.
pub open spec fn container_step(value: Option<bool>, event: EventView) -> Option<bool> {
    match event {
        EventView::Text(content) => if content == "True"@ {
            Some(true)
        } else if content == "False"@ {
            Some(false)
        } else {
            value
        },
        _ => value,
    }
}

/// [`container_step`] as a function value.
pub open spec fn container_steps() -> spec_fn(Option<bool>, EventView) -> Option<bool> {
    |v: Option<bool>, e: EventView| container_step(v, e)
}

/// The value and end position of the option element whose content starts at `pos`.
pub open spec fn container_scan(evs: Seq<EventView>, pos: int) -> (Option<bool>, int) {
    element_fold(evs, pos, 1, None, container_steps())
}

/// Whether the option `name` is one that is on by default.
pub open spec fn on_by_default(name: Seq<char>) -> bool {
    name == "Close"@ || name == "Minimize"@ || name == "Maximize"@ || name == "Resize"@
        || name == "MenuBar"@ || name == "Toolbar"@
}

/// An option is shown as `label: ON|OFF`, with `MenuBar` called `Menu`; `DimParentWindow`,
/// options without a value, and options at their default `ON` are not shown.
pub open spec fn container_display(name: Seq<char>, value: Option<bool>) -> Option<Seq<char>> {
    if name == "DimParentWindow"@ {
        None
    } else {
        match value {
            None => None,
            Some(v) => if v && on_by_default(name) {
                None
            } else {
                Some(replace_all(name, "MenuBar"@, "Menu"@) + ": "@ + on_off_text(v))
            },
        }
    }
}

impl BooleanContainer {
    /// Reads an option element whose start tag `e` was the last event read.
    pub fn from_xml(reader: &mut XmlReader, e: &XmlEvent) -> (item: BooleanContainer)
        ensures
            final(reader).events == old(reader).events,
            item.name@ == local_part(event_name(e@)),
            (item.value, final(reader).pos as int) == container_scan(old(reader).evs(), old(reader).pos as int),
    {
        let ghost evs = reader.evs();
        let ghost start = reader.pos as int;
        let mut depth: u128 = 1;
        let mut item = BooleanContainer { name: local_name(get_event_name(e).as_str()), value: None };
        loop
            invariant_except_break
                1 <= depth <= reader.pos + 1,
                element_fold(evs, reader.pos as int, depth as int, item.value, container_steps())
                    == container_scan(evs, start),
            invariant
                reader.events == old(reader).events,
                evs == reader.evs(),
                item.name@ == local_part(event_name(e@)),
            ensures
                (item.value, reader.pos as int) == container_scan(evs, start),
            decreases evs.len() - reader.pos,
        {
            match reader.read_event() {
                None => break,
                Some(XmlEvent::Start { .. }) => {
                    depth = depth + 1;
                },
                Some(XmlEvent::Text { content }) => {
                    if str_eq(content.as_str(), "True") {
                        item.value = Some(true);
                    } else if str_eq(content.as_str(), "False") {
                        item.value = Some(false);
                    }
                },
                Some(XmlEvent::End { .. }) => {
                    depth = depth - 1;
                    if depth == 0 {
                        break;
                    }
                },
                Some(_) => {},
            }
        }
        item
    }

    /// The option as it is shown, or `None` where it is hidden.
    pub fn display(self) -> (res: Option<String>)
        ensures
            res.deep_view() == container_display(self.name@, self.value),
    {
        proof {
            reveal_strlit("MenuBar");
        }
        if str_eq(self.name.as_str(), "DimParentWindow") {
            return None;
        }
        let value = match self.value {
            Some(v) => v,
            None => {
                return None;
            },
        };
        let name = self.name.as_str();
        if value && (str_eq(name, "Close") || str_eq(name, "Minimize") || str_eq(name, "Maximize")
            || str_eq(name, "Resize") || str_eq(name, "MenuBar") || str_eq(name, "Toolbar")) {
            return None;
        }
        let label = replace(name, "MenuBar", "Menu");
        Some(concat3(label.as_str(), ": ", Boolean::on_off(value)))
    }
}

} // verus!
