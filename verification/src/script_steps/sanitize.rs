//! A script step as one line of text: its name and its parameters.
use vstd::prelude::*;

use crate::script_steps::constants::{id_to_script_step, script_step_of, ScriptStep};
use crate::script_steps::parameters::parameter_values::{lemma_parameter_values_scan_bounds, parameter_values_scan, ParameterValues};
use crate::text::{concat, concat3, decimal, decimal_string, join, join_seq, str_eq, string_of, trim, trimmed};
use crate::xml::{first_attribute, get_attribute, parse_events, xml_events, EventView, XmlEvent, XmlReader};

verus! {

/// Reads a step's events from `pos` on: each `<Step>` tag with a `name` sets the name, and each
/// parameter list adds how its parameters are shown; `None` where a comment does not unescape.
pub open spec fn step_scan(evs: Seq<EventView>, pos: int, step_id: u32, name: Seq<char>, lists: Seq<Seq<char>>) -> Option<(Seq<char>, Seq<Seq<char>>)>
    decreases evs.len() - pos,
{
    if pos < 0 || pos >= evs.len() {
        Some((name, lists))
    } else {
        match evs[pos] {
            EventView::Start(tag, attributes) => if tag == "Step"@ {
                let next = match first_attribute(attributes, "name"@) {
                    Some(n) => n,
                    None => name,
                };
                step_scan(evs, pos + 1, step_id, next, lists)
            } else if tag == "ParameterValues"@ {
                match parameter_values_scan(evs, pos + 1, 1, step_id, Seq::empty()) {
                    None => None,
                    Some((parts, end)) => {
                        proof {
                            lemma_parameter_values_scan_bounds(evs, pos + 1, 1, step_id, Seq::empty());
                        }
                        step_scan(evs, end, step_id, name, lists.push(join_seq(parts, " ; "@)))
                    },
                }
            } else {
                step_scan(evs, pos + 1, step_id, name, lists)
            },
            _ => step_scan(evs, pos + 1, step_id, name, lists),
        }
    }
}

/// Whether a step of kind `step` with no parameters to show is written with empty brackets.
pub open spec fn shows_empty_brackets(step: ScriptStep) -> bool {
    step == ScriptStep::GoToField || step == ScriptStep::IfStart || step == ScriptStep::IfElse
        || step == ScriptStep::ExitLoopIf
}

/// The line of the step `step_id` with the name `name` and the shown parameter lists `lists`:
/// a comment as `# text` (empty without text); another step as `name [ parameters ]`, or its
/// bare name (with `[]` for conditions and fields) where no parameter shows.
pub open spec fn step_line(step_id: u32, name: Seq<char>, lists: Seq<Seq<char>>) -> Seq<char> {
    let parameters = join_seq(lists, " ; "@);
    let step = script_step_of(decimal(step_id as nat));
    if step == ScriptStep::Comment {
        if trimmed(parameters).len() == 0 {
            Seq::empty()
        } else {
            "# "@ + parameters
        }
    } else if trimmed(parameters).len() == 0 {
        if shows_empty_brackets(step) {
            name + " []"@
        } else {
            name
        }
    } else {
        name + " [ "@ + trimmed(parameters) + " ]"@
    }
}

/// The line of the step `step_id` whose events are `evs`; `None` where a comment in it does
/// not unescape.
pub open spec fn step_outcome(step_id: u32, evs: Seq<EventView>) -> Option<Seq<char>> {
    match step_scan(evs, 0, step_id, Seq::empty(), Seq::empty()) {
        Some((name, lists)) => Some(step_line(step_id, name, lists)),
        None => None,
    }
}

/// Reads a step's events: its name and how each of its parameter lists is shown; `None` where
/// a comment parameter does not unescape.
pub fn sanitize_scan_events(step_id: u32, events: &Vec<XmlEvent>) -> (res: Option<(String, Vec<String>)>)
    ensures
        match step_scan(events.deep_view(), 0, step_id, Seq::empty(), Seq::empty()) {
            Some((name, lists)) => res matches Some((n, l)) && n@ == name && l.deep_view() == lists,
            None => res is None,
        },
{
    let ghost evs = events.deep_view();
    let mut reader = XmlReader::new(events);
    let mut name = String::new();
    let mut lists: Vec<String> = Vec::new();
    assert(lists.deep_view() =~= Seq::<Seq<char>>::empty());
    loop
        invariant_except_break
            step_scan(evs, reader.pos as int, step_id, name@, lists.deep_view())
                == step_scan(evs, 0, step_id, Seq::empty(), Seq::empty()),
        invariant
            reader.events == events,
            evs == reader.evs(),
        ensures
            step_scan(evs, 0, step_id, Seq::empty(), Seq::empty()) == Some((name@, lists.deep_view())),
        decreases evs.len() - reader.pos,
    {
        let ghost pos = reader.pos as int;
        match reader.read_event() {
            None => break,
            Some(event) => match event {
                XmlEvent::Start { name: tag, attributes } => {
                    if str_eq(tag.as_str(), "Step") {
                        if let Some(n) = get_attribute(attributes, "name") {
                            name = n;
                        }
                    } else if str_eq(tag.as_str(), "ParameterValues") {
                        proof {
                            lemma_parameter_values_scan_bounds(evs, pos + 1, 1, step_id, Seq::empty());
                        }
                        match ParameterValues::from_xml_checked(&mut reader, event, step_id) {
                            Some(values) => {
                                let ghost before = lists.deep_view();
                                let shown = values.display();
                                lists.push(shown);
                                assert(lists.deep_view() =~= before.push(shown@));
                            },
                            None => {
                                return None;
                            },
                        }
                    }
                },
                _ => {},
            },
        }
    }
    Some((name, lists))
}

/// The line of the step `step_id`, read from its events; `None` where a comment parameter
/// does not unescape.
pub fn sanitize_events(step_id: u32, events: &Vec<XmlEvent>) -> (res: Option<String>)
    ensures
        res.deep_view() == step_outcome(step_id, events.deep_view()),
{
    let (name, lists) = match sanitize_scan_events(step_id, events) {
        Some(found) => found,
        None => {
            return None;
        },
    };
    let parameters = join(&lists, " ; ");
    let step = id_to_script_step(decimal_string(step_id as u64).as_str());
    proof {
        reveal_strlit("");
    }
    if step == ScriptStep::Comment {
        if trim(parameters.as_str()).unicode_len() == 0 {
            return Some(string_of(""));
        } else {
            return Some(concat("# ", parameters.as_str()));
        }
    }
    let parameters = trim(parameters.as_str());
    if parameters.unicode_len() == 0 {
        if step == ScriptStep::GoToField || step == ScriptStep::IfStart || step == ScriptStep::IfElse
            || step == ScriptStep::ExitLoopIf {
            return Some(concat(name.as_str(), " []"));
        }
        return Some(name);
    }
    Some(concat3(name.as_str(), " [ ", concat(parameters, " ]").as_str()))
}

/// Whether the step `step` can be turned into a line: every comment parameter in it unescapes.
pub open spec fn step_readable(step_id: u32, step: Seq<char>) -> bool {
    step_outcome(step_id, xml_events(step)) is Some
}

/// The line of the step `step_id` whose XML is `step`.
pub fn from_xml(step_id: &u32, step: &str) -> (res: Option<String>)
    requires
        step_readable(*step_id, step@),
    ensures
        res.deep_view() == step_outcome(*step_id, xml_events(step@)),
{
    let events = parse_events(step);
    sanitize_events(*step_id, &events)
}

/// The line of the step `step_id` whose XML is `step`, as [`from_xml`] gives it; `None` where a
/// comment parameter in it does not unescape.
pub fn from_xml_checked(step_id: &u32, step: &str) -> (res: Option<Option<String>>)
    ensures
        step_readable(*step_id, step@) ==> (res matches Some(line) && line.deep_view() == step_outcome(*step_id, xml_events(step@))),
        !step_readable(*step_id, step@) ==> res is None,
{
    let events = parse_events(step);
    match sanitize_events(*step_id, &events) {
        Some(_) => Some(from_xml(step_id, step)),
        None => None,
    }
}

} // verus!
