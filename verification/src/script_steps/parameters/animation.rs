use vstd::prelude::*;
use vstd::string::*;

use crate::text::{str_eq, string_of};
use crate::xml::{element_fold, first_attribute, get_attribute, EventView, XmlEvent, XmlReader};

verus! {

/// The `Animation` parameter of a script step.
#[derive(Debug, Default)]
pub struct Animation {
    pub value: Option<String>,
}

/// What reading an event does to the value: an `<Animation>` start tag sets it to its `name`.
pub open spec fn animation_step(value: Option<Seq<char>>, event: EventView) -> Option<Seq<char>> {
    match event {
        EventView::Start(name, attributes) if name == "Animation"@ => first_attribute(attributes, "name"@),
        _ => value,
    }
}

/// [`animation_step`] as a function value.
pub open spec fn animation_steps() -> spec_fn(Option<Seq<char>>, EventView) -> Option<Seq<char>> {
    |v: Option<Seq<char>>, e: EventView| animation_step(v, e)
}

/// The value and end position of the `Animation` parameter whose content starts at `pos`.
pub open spec fn animation_scan(evs: Seq<EventView>, pos: int) -> (Option<Seq<char>>, int) {
    element_fold(evs, pos, 1, None, animation_steps())
}

/// An animation is shown as `Animation: <value>`.
pub open spec fn animation_display(value: Option<Seq<char>>) -> Option<Seq<char>> {
    match value {
        Some(v) => Some("Animation: "@ + v),
        None => None,
    }
}

impl Animation {
    /// Reads an `Animation` parameter whose start tag was the last event read.
    pub fn from_xml(reader: &mut XmlReader, _e: &XmlEvent) -> (item: Animation)
        ensures
            final(reader).events == old(reader).events,
            (item.value.deep_view(), final(reader).pos as int) == animation_scan(old(reader).evs(), old(reader).pos as int),
    {
        let ghost evs = reader.evs();
        let ghost start = reader.pos as int;
        let ghost step = animation_steps();
        let mut depth: u128 = 1;
        let mut item = Animation { value: None };
        loop
            invariant_except_break
                1 <= depth <= reader.pos + 1,
                element_fold(evs, reader.pos as int, depth as int, item.value.deep_view(), step)
                    == animation_scan(evs, start),
            invariant
                reader.events == old(reader).events,
                evs == reader.evs(),
                step == animation_steps(),
            ensures
                reader.events == old(reader).events,
                (item.value.deep_view(), reader.pos as int) == animation_scan(evs, start),
            decreases evs.len() - reader.pos,
        {
            match reader.read_event() {
                None => break,
                Some(XmlEvent::Start { name, attributes }) => {
                    if str_eq(name.as_str(), "Animation") {
                        item.value = get_attribute(attributes, "name");
                    }
                    depth = depth + 1;
                },
                Some(XmlEvent::End { .. }) => {
                    depth = depth - 1;
                    if depth == 0 {
                        break;
                    }
                },
                Some(_) => {},
            }
        }
        item
    }

    /// `Animation: <value>`, or `None` without a value.
    pub fn display(self) -> (res: Option<String>)
        ensures
            res.deep_view() == animation_display(self.value.deep_view()),
    {
        match self.value {
            Some(value) => {
                let mut s = string_of("Animation: ");
                s.append(value.as_str());
                Some(s)
            },
            None => None,
        }
    }
}

} // verus!
