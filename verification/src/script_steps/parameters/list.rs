use vstd::prelude::*;

use crate::script_steps::constants::{id_to_script_step, script_step_of, ScriptStep};
use crate::text::{concat, decimal, decimal_string, str_eq};
use crate::xml::{element_fold, first_attribute, get_attribute, unescape, xml_unescaped, EventView, XmlEvent, XmlReader};

verus! {

/// A list parameter: the name of the chosen item.
#[derive(Debug)]
pub struct List {
    pub name: Option<String>,
}

/// What reading an event does: a `<List>` start tag whose `name` unescapes sets the name to it,
/// prefixed with `Flush: ` in a Loop step.
pub open spec fn list_step(step_id: u32, name: Option<Seq<char>>, event: EventView) -> Option<Seq<char>> {
    match event {
        EventView::Start(tag, attributes) if tag == "List"@ => match first_attribute(attributes, "name"@) {
            Some(raw) => match xml_unescaped(raw) {
                Some(value) => if script_step_of(decimal(step_id as nat)) == ScriptStep::LoopStart {
                    Some("Flush: "@ + value)
                } else {
                    Some(value)
                },
                None => name,
            },
            None => name,
        },
        _ => name,
    }
}

/// [`list_step`] of the step `step_id` as a function value.
pub open spec fn list_steps(step_id: u32) -> spec_fn(Option<Seq<char>>, EventView) -> Option<Seq<char>> {
    |n: Option<Seq<char>>, e: EventView| list_step(step_id, n, e)
}

/// The name and end position of the list parameter of step `step_id` whose content starts at `pos`.
pub open spec fn list_scan(evs: Seq<EventView>, pos: int, step_id: u32) -> (Option<Seq<char>>, int) {
    element_fold(evs, pos, 1, None, list_steps(step_id))
}

impl List {
    /// Reads a list parameter of the step `step_id` whose start tag was the last event read.
    pub fn from_xml(reader: &mut XmlReader, _e: &XmlEvent, step_id: &u32) -> (res: Result<List, String>)
        ensures
            final(reader).events == old(reader).events,
            res matches Ok(item) && (item.name.deep_view(), final(reader).pos as int)
                == list_scan(old(reader).evs(), old(reader).pos as int, *step_id),
    {
        let ghost evs = reader.evs();
        let ghost start = reader.pos as int;
        let in_loop = id_to_script_step(decimal_string(*step_id as u64).as_str()) == ScriptStep::LoopStart;
        let mut depth: u128 = 1;
        let mut item = List { name: None };
        loop
            invariant_except_break
                1 <= depth <= reader.pos + 1,
                element_fold(evs, reader.pos as int, depth as int, item.name.deep_view(), list_steps(*step_id))
                    == list_scan(evs, start, *step_id),
            invariant
                reader.events == old(reader).events,
                evs == reader.evs(),
                in_loop == (script_step_of(decimal(*step_id as nat)) == ScriptStep::LoopStart),
            ensures
                (item.name.deep_view(), reader.pos as int) == list_scan(evs, start, *step_id),
            decreases evs.len() - reader.pos,
        {
            match reader.read_event() {
                None => break,
                Some(XmlEvent::Start { name, attributes }) => {
                    depth = depth + 1;
                    if str_eq(name.as_str(), "List") {
                        if let Some(raw) = get_attribute(attributes, "name") {
                            if let Some(value) = unescape(raw.as_str()) {
                                item.name = if in_loop {
                                    Some(concat("Flush: ", value.as_str()))
                                } else {
                                    Some(value)
                                };
                            }
                        }
                    }
                },
                Some(XmlEvent::End { .. }) => {
                    depth = depth - 1;
                    if depth == 0 {
                        break;
                    }
                },
                Some(_) => {},
            }
        }
        Ok(item)
    }

    /// The chosen item.
    pub fn display(&self) -> (res: Option<String>)
        ensures
            res == self.name,
    {
        self.name.clone()
    }
}

} // verus!
