//! The Perform Script step: the script (from a list or by name), its file and its parameter.
use vstd::prelude::*;

use crate::script_steps::parameters::calculation::{calculation_display, calculation_scan, calculation_steps};
use crate::script_steps::step_scan::{bracketed, is_parameter, raw_formula, read_calculation_display, write_bracketed};
use crate::text::{concat, concat3, str_eq, string_of};
use crate::xml::{attribute_is, first_attribute, get_attribute, lemma_element_fold_bounds, parse_events, parse_unescaped_attribute, unescaped_attribute, xml_events, EventView, XmlEvent, XmlReader};

verus! {

/// Step name, data source, how the script is specified (name and id), the script, and the
/// parameter formula.
pub type PerformScriptFields = (Seq<char>, Option<Seq<char>>, Seq<char>, Seq<char>, Seq<char>, Seq<char>);

/// Reads a Perform Script step's events from `pos` on. `<Step>` sets the step name; `<List>`
/// how the script is specified (by its `value` and `name`), and for a script given by name
/// (`2`) reads the calculation inside it as the script; `<DataSourceReference>` sets the data
/// source; `<ScriptReference>` the script (by its unescaped `name`; without one, the reading
/// ends with no line); a parameter of type `Parameter` the parameter formula. The outer `None`
/// is where the step cannot be shown: a name or value missing, or a script calculation that
/// does not show.
pub open spec fn perform_script_scan(evs: Seq<EventView>, pos: int, f: PerformScriptFields) -> Option<Option<PerformScriptFields>>
    decreases evs.len() - pos,
{
    if pos < 0 || pos >= evs.len() {
        Some(Some(f))
    } else {
        let (step, source, kind, kind_id, script, parameter) = f;
        match evs[pos] {
            EventView::Start(name, attributes) => if name == "Step"@ {
                match first_attribute(attributes, "name"@) {
                    Some(n) => perform_script_scan(evs, pos + 1, (n, source, kind, kind_id, script, parameter)),
                    None => None,
                }
            } else if name == "List"@ {
                match (first_attribute(attributes, "value"@), first_attribute(attributes, "name"@)) {
                    (Some(id), Some(k)) => if id == "2"@ {
                        let (calculation, end) = calculation_scan(evs, pos + 1);
                        proof {
                            lemma_element_fold_bounds(evs, pos + 1, 1, (None, false), calculation_steps());
                        }
                        match calculation_display(calculation) {
                            Some(s) => perform_script_scan(evs, end, (step, source, k, id, s, parameter)),
                            None => None,
                        }
                    } else {
                        perform_script_scan(evs, pos + 1, (step, source, k, id, script, parameter))
                    },
                    _ => None,
                }
            } else if name == "DataSourceReference"@ {
                perform_script_scan(evs, pos + 1, (step, unescaped_attribute(attributes, "name"@), kind, kind_id, script, parameter))
            } else if name == "ScriptReference"@ {
                match unescaped_attribute(attributes, "name"@) {
                    Some(s) => perform_script_scan(evs, pos + 1, (step, source, kind, kind_id, s, parameter)),
                    None => Some(None),
                }
            } else if is_parameter(name, attributes, "Parameter"@) {
                let (calculation, end) = calculation_scan(evs, pos + 1);
                proof {
                    lemma_element_fold_bounds(evs, pos + 1, 1, (None, false), calculation_steps());
                }
                perform_script_scan(evs, end, (step, source, kind, kind_id, script, raw_formula(calculation_display(calculation))))
            } else {
                perform_script_scan(evs, pos + 1, f)
            },
            _ => perform_script_scan(evs, pos + 1, f),
        }
    }
}

/// The parts of a Perform Script line: the script and how it is specified (by name: the
/// specification first, then the expression; from a list: the quoted script first), the file
/// where there is one, and the parameter (`Parameter:` alone where it is empty).
pub open spec fn perform_script_parts(f: PerformScriptFields) -> Seq<Seq<char>> {
    let (step, source, kind, kind_id, script, parameter) = f;
    let specified = "Specified: "@ + kind;
    let a = if kind_id == "2"@ {
        seq![specified, script]
    } else {
        seq!["\""@ + script + "\""@, specified]
    };
    let b = match source {
        Some(s) => a.push("File: \""@ + s + "\""@),
        None => a,
    };
    b.push(if parameter.len() == 0 { "Parameter:"@ } else { "Parameter: "@ + parameter })
}

/// The line of a Perform Script step: `name [ parts ]`; no line without a step name or where a
/// script reference has no name; `None` where it cannot be shown.
pub open spec fn perform_script_outcome(evs: Seq<EventView>) -> Option<Option<Seq<char>>> {
    match perform_script_scan(evs, 0, (Seq::empty(), None, Seq::empty(), Seq::empty(), Seq::empty(), Seq::empty())) {
        None => None,
        Some(None) => Some(None),
        Some(Some(f)) => Some(if f.0.len() == 0 {
            None
        } else {
            Some(bracketed(f.0, perform_script_parts(f)))
        }),
    }
}

/// The line of a Perform Script step read from its events.
pub fn perform_script_line(events: &Vec<XmlEvent>) -> (res: Option<Option<String>>)
    ensures
        res.deep_view() == perform_script_outcome(events.deep_view()),
{
    let ghost evs = events.deep_view();
    let mut reader = XmlReader::new(events);
    let mut step = String::new();
    let mut source: Option<String> = None;
    let mut kind = String::new();
    let mut kind_id = String::new();
    let mut script = String::new();
    let mut parameter = String::new();
    loop
        invariant
            reader.events == events,
            evs == reader.evs(),
            reader.pos <= evs.len(),
            perform_script_scan(evs, reader.pos as int, (step@, source.deep_view(), kind@, kind_id@, script@, parameter@))
                == perform_script_scan(evs, 0, (Seq::empty(), None, Seq::empty(), Seq::empty(), Seq::empty(), Seq::empty())),
        ensures
            reader.pos >= evs.len(),
        decreases evs.len() - reader.pos,
    {
        let ghost pos = reader.pos as int;
        match reader.read_event() {
            None => break,
            Some(event) => match event {
                XmlEvent::Start { name, attributes } => {
                    if str_eq(name.as_str(), "Step") {
                        match get_attribute(attributes, "name") {
                            Some(n) => {
                                step = n;
                            },
                            None => {
                                return None;
                            },
                        }
                    } else if str_eq(name.as_str(), "List") {
                        match (get_attribute(attributes, "value"), get_attribute(attributes, "name")) {
                            (Some(id), Some(k)) => {
                                let by_name = str_eq(id.as_str(), "2");
                                kind_id = id;
                                kind = k;
                                if by_name {
                                    proof {
                                        lemma_element_fold_bounds(evs, pos + 1, 1, (None, false), calculation_steps());
                                    }
                                    match read_calculation_display(&mut reader, event) {
                                        Some(s) => {
                                            script = s;
                                        },
                                        None => {
                                            return None;
                                        },
                                    }
                                }
                            },
                            _ => {
                                return None;
                            },
                        }
                    } else if str_eq(name.as_str(), "DataSourceReference") {
                        source = parse_unescaped_attribute(attributes, "name");
                    } else if str_eq(name.as_str(), "ScriptReference") {
                        match parse_unescaped_attribute(attributes, "name") {
                            Some(s) => {
                                script = s;
                            },
                            None => {
                                return Some(None);
                            },
                        }
                    } else if str_eq(name.as_str(), "Parameter") && attribute_is(attributes, "type", "Parameter") {
                        proof {
                            lemma_element_fold_bounds(evs, pos + 1, 1, (None, false), calculation_steps());
                        }
                        parameter = match read_calculation_display(&mut reader, event) {
                            Some(c) => c,
                            None => String::new(),
                        };
                    }
                },
                _ => {},
            },
        }
    }
    if step.unicode_len() == 0 {
        return Some(None);
    }
    proof {
        reveal_strlit("2");
    }
    let mut parts: Vec<String> = Vec::new();
    let specified = concat("Specified: ", kind.as_str());
    if str_eq(kind_id.as_str(), "2") {
        parts.push(specified);
        parts.push(script.clone());
    } else {
        parts.push(concat3("\"", script.as_str(), "\""));
        parts.push(specified);
    }
    let ghost a = parts.deep_view();
    if let Some(s) = source {
        parts.push(concat3("File: \"", s.as_str(), "\""));
        assert(parts.deep_view() =~= a.push("File: \""@ + s@ + "\""@));
    }
    let ghost b = parts.deep_view();
    if parameter.unicode_len() == 0 {
        parts.push(string_of("Parameter:"));
        assert(parts.deep_view() =~= b.push("Parameter:"@));
    } else {
        parts.push(concat("Parameter: ", parameter.as_str()));
        assert(parts.deep_view() =~= b.push("Parameter: "@ + parameter@));
    }
    assert(parts.deep_view() =~= perform_script_parts((step@, source.deep_view(), kind@, kind_id@, script@, parameter@)));
    Some(Some(write_bracketed(step.as_str(), &parts)))
}

/// Whether the Perform Script step `step` can be shown.
pub open spec fn perform_script_readable(step: Seq<char>) -> bool {
    perform_script_outcome(xml_events(step)) is Some
}

/// The line of the Perform Script step whose XML is `step`.
pub fn sanitize(step: &str) -> (res: Option<String>)
    requires
        perform_script_readable(step@),
    ensures
        Some(res.deep_view()) == perform_script_outcome(xml_events(step@)),
{
    let events = parse_events(step);
    match perform_script_line(&events) {
        Some(line) => line,
        None => None,
    }
}

/// The line of the Perform Script step whose XML is `step`, as [`sanitize`] gives it; `None`
/// where it cannot be shown.
pub fn sanitize_checked(step: &str) -> (res: Option<Option<String>>)
    ensures
        res.deep_view() == perform_script_outcome(xml_events(step@)),
{
    let events = parse_events(step);
    match perform_script_line(&events) {
        Some(_) => Some(sanitize(step)),
        None => None,
    }
}

} // verus!
