//! The Replace Field Contents step: its options, field, replacement and serial numbering.
use vstd::prelude::*;
use vstd::string::*;

use crate::script_sanitizer::or_keep;
use crate::script_steps::parameters::calculation::{calculation_scan, calculation_steps};
use crate::script_steps::parameters::field_reference::{field_display, field_scan, field_steps, FieldReference};
use crate::script_steps::step_scan::{bracketed, raw_formula, read_formula, write_bracketed};
use crate::text::{concat3, replace, replace_all, str_eq, string_of};
use crate::xml::{event_attribute, first_attribute, get_attribute, lemma_element_fold_bounds, parse_events, xml_events, EventView, XmlEvent, XmlReader};

verus! {

/// What has been read of a Replace Field Contents step: its name, its labelled parameters, the
/// replacing formula and its label, the serial number's start and step, and whether the next
/// `<List>` names the last parameter.
pub struct ReplaceScan {
    pub step: Seq<char>,
    pub params: Seq<(Seq<char>, Seq<char>)>,
    pub calculation: Seq<char>,
    pub calculation_label: Seq<char>,
    pub initial: Seq<char>,
    pub interval: Seq<char>,
    pub list_to_label: bool,
}

/// Nothing read of the step yet.
pub open spec fn replace_start() -> ReplaceScan {
    ReplaceScan {
        step: Seq::empty(),
        params: Seq::empty(),
        calculation: Seq::empty(),
        calculation_label: Seq::empty(),
        initial: Seq::empty(),
        interval: Seq::empty(),
        list_to_label: false,
    }
}

/// Reads the step's events from `pos` on. `<Step>` gives the name; a `<Boolean>` whose value is
/// `True` adds its `type` as an `ON` option; a field reference parameter is read whole and adds
/// the field; a `<Calculation>` is read whole and gives the formula; a `<List>` adds its name
/// (values `0`, `1`, `2`; after `2` the next `<List>` whose value is `True` moves the last name
/// to the label and puts its own name after it) or gives the formula's label (value `3`);
/// `<Initial>` and `<increment>` give the serial number's start and step. `None` where an
/// attribute that is read is missing, which is where the step cannot be shown.
pub open spec fn replace_scan(evs: Seq<EventView>, pos: int, st: ReplaceScan) -> Option<ReplaceScan>
    decreases evs.len() - pos,
{
    if pos < 0 || pos >= evs.len() {
        Some(st)
    } else {
        match evs[pos] {
            EventView::Start(name, attributes) => {
                let value = first_attribute(attributes, "value"@);
                let label = first_attribute(attributes, "name"@);
                if name == "Step"@ {
                    match label {
                        Some(n) => replace_scan(evs, pos + 1, ReplaceScan { step: n, ..st }),
                        None => None,
                    }
                } else if name == "Boolean"@ {
                    match value {
                        None => None,
                        Some(v) => if v != "True"@ {
                            replace_scan(evs, pos + 1, st)
                        } else {
                            match first_attribute(attributes, "type"@) {
                                Some(t) => replace_scan(evs, pos + 1, ReplaceScan { params: st.params.push((t, "ON"@)), ..st }),
                                None => None,
                            }
                        },
                    }
                } else if name == "Parameter"@ {
                    match first_attribute(attributes, "type"@) {
                        None => None,
                        Some(t) => if t == "FieldReference"@ {
                            let (field, end) = field_scan(evs, pos + 1, evs[pos]);
                            proof {
                                lemma_element_fold_bounds(evs, pos + 1, 1, (None, event_attribute(evs[pos], "name"@), None), field_steps());
                            }
                            replace_scan(evs, end, ReplaceScan { params: st.params.push((Seq::empty(), field_display(field))), ..st })
                        } else {
                            replace_scan(evs, pos + 1, st)
                        },
                    }
                } else if name == "Calculation"@ {
                    let (calculation, end) = calculation_scan(evs, pos + 1);
                    proof {
                        lemma_element_fold_bounds(evs, pos + 1, 1, (None, false), calculation_steps());
                    }
                    replace_scan(evs, end, ReplaceScan { calculation: raw_formula(calculation), ..st })
                } else if name == "List"@ && st.list_to_label {
                    match value {
                        None => None,
                        Some(v) => if v == "True"@ && st.params.len() > 0 {
                            match label {
                                Some(n) => replace_scan(evs, pos + 1, ReplaceScan {
                                    params: st.params.drop_last().push((st.params.last().1, n)),
                                    ..st
                                }),
                                None => None,
                            }
                        } else {
                            replace_scan(evs, pos + 1, st)
                        },
                    }
                } else if name == "List"@ {
                    let v = or_keep(value, Seq::empty());
                    if v == "0"@ || v == "1"@ || v == "2"@ {
                        match label {
                            Some(n) => replace_scan(evs, pos + 1, ReplaceScan {
                                params: st.params.push((Seq::empty(), n)),
                                list_to_label: v == "2"@,
                                ..st
                            }),
                            None => None,
                        }
                    } else if v == "3"@ {
                        match label {
                            Some(n) => replace_scan(evs, pos + 1, ReplaceScan { calculation_label: n, ..st }),
                            None => None,
                        }
                    } else {
                        replace_scan(evs, pos + 1, st)
                    }
                } else if name == "Initial"@ {
                    match value {
                        Some(v) => replace_scan(evs, pos + 1, ReplaceScan { initial: v, ..st }),
                        None => None,
                    }
                } else if name == "increment"@ {
                    match value {
                        Some(v) => replace_scan(evs, pos + 1, ReplaceScan { interval: v, ..st }),
                        None => None,
                    }
                } else {
                    replace_scan(evs, pos + 1, st)
                }
            },
            _ => replace_scan(evs, pos + 1, st),
        }
    }
}

/// The step's parameters after reading: the formula (with its label) where there is one, then
/// the serial number's start and step where they are given.
pub open spec fn replace_params(st: ReplaceScan) -> Seq<(Seq<char>, Seq<char>)> {
    let with_calculation = if st.calculation.len() > 0 { st.params.push((st.calculation_label, st.calculation)) } else { st.params };
    let with_initial = if st.initial.len() > 0 { with_calculation.push(("Initial"@, st.initial)) } else { with_calculation };
    if st.interval.len() > 0 { with_initial.push(("Interval"@, st.interval)) } else { with_initial }
}

/// A parameter as shown: `label: value`, or the bare value without a label; `": "` is taken out
/// of labels and of bare values.
pub open spec fn replace_part(p: (Seq<char>, Seq<char>)) -> Seq<char> {
    if p.0.len() == 0 {
        replace_all(p.1, ": "@, Seq::empty())
    } else {
        replace_all(p.0, ": "@, Seq::empty()) + ": "@ + p.1
    }
}

/// The line of a Replace Field Contents step: `name [ parameters ]`; no line without a step
/// name; `None` where the step cannot be shown.
pub open spec fn replace_outcome(evs: Seq<EventView>) -> Option<Option<Seq<char>>> {
    match replace_scan(evs, 0, replace_start()) {
        None => None,
        Some(st) => Some(if st.step.len() == 0 {
            None
        } else {
            Some(bracketed(st.step, replace_params(st).map_values(|p: (Seq<char>, Seq<char>)| replace_part(p))))
        }),
    }
}

/// Adds a labelled parameter.
fn push_param(params: &mut Vec<(String, String)>, label: String, value: String)
    ensures
        final(params).deep_view() == old(params).deep_view().push((label@, value@)),
{
    let ghost before = params.deep_view();
    let ghost added = (label@, value@);
    params.push((label, value));
    assert(params.deep_view() =~= before.push(added));
}

/// The line of a Replace Field Contents step read from its events.
pub fn replace_line(events: &Vec<XmlEvent>) -> (res: Option<Option<String>>)
    ensures
        res.deep_view() == replace_outcome(events.deep_view()),
{
    let ghost evs = events.deep_view();
    proof {
        reveal_strlit(": ");
    }
    let mut reader = XmlReader::new(events);
    let mut step = String::new();
    let mut params: Vec<(String, String)> = Vec::new();
    let mut calculation = String::new();
    let mut calculation_label = String::new();
    let mut initial = String::new();
    let mut interval = String::new();
    let mut list_to_label = false;
    assert(params.deep_view() =~= Seq::<(Seq<char>, Seq<char>)>::empty());
    loop
        invariant_except_break
            replace_scan(evs, reader.pos as int, ReplaceScan {
                step: step@,
                params: params.deep_view(),
                calculation: calculation@,
                calculation_label: calculation_label@,
                initial: initial@,
                interval: interval@,
                list_to_label,
            }) == replace_scan(evs, 0, replace_start()),
        invariant
            reader.events == events,
            evs == reader.evs(),
            reader.pos <= evs.len(),
        ensures
            replace_scan(evs, 0, replace_start()) == Some(ReplaceScan {
                step: step@,
                params: params.deep_view(),
                calculation: calculation@,
                calculation_label: calculation_label@,
                initial: initial@,
                interval: interval@,
                list_to_label,
            }),
        decreases evs.len() - reader.pos,
    {
        let ghost pos = reader.pos as int;
        match reader.read_event() {
            None => break,
            Some(event) => match event {
                XmlEvent::Start { name, attributes } => {
                    let value = get_attribute(attributes, "value");
                    let label = get_attribute(attributes, "name");
                    if str_eq(name.as_str(), "Step") {
                        match label {
                            Some(n) => {
                                step = n;
                            },
                            None => {
                                return None;
                            },
                        }
                    } else if str_eq(name.as_str(), "Boolean") {
                        match value {
                            None => {
                                return None;
                            },
                            Some(v) => if str_eq(v.as_str(), "True") {
                                match get_attribute(attributes, "type") {
                                    Some(t) => push_param(&mut params, t, string_of("ON")),
                                    None => {
                                        return None;
                                    },
                                }
                            },
                        }
                    } else if str_eq(name.as_str(), "Parameter") {
                        match get_attribute(attributes, "type") {
                            None => {
                                return None;
                            },
                            Some(t) => if str_eq(t.as_str(), "FieldReference") {
                                proof {
                                    lemma_element_fold_bounds(evs, pos + 1, 1, (None, event_attribute(evs[pos], "name"@), None), field_steps());
                                }
                                if let Ok(field) = FieldReference::from_xml(&mut reader, event) {
                                    if let Some(shown) = field.display() {
                                        push_param(&mut params, String::new(), shown);
                                    }
                                }
                            },
                        }
                    } else if str_eq(name.as_str(), "Calculation") {
                        proof {
                            lemma_element_fold_bounds(evs, pos + 1, 1, (None, false), calculation_steps());
                        }
                        calculation = read_formula(&mut reader, event);
                    } else if str_eq(name.as_str(), "List") && list_to_label {
                        match value {
                            None => {
                                return None;
                            },
                            Some(v) => if str_eq(v.as_str(), "True") && params.len() > 0 {
                                match label {
                                    Some(n) => {
                                        let ghost before = params.deep_view();
                                        let last = params.pop().unwrap();
                                        assert(params.deep_view() =~= before.drop_last());
                                        push_param(&mut params, last.1, n);
                                    },
                                    None => {
                                        return None;
                                    },
                                }
                            },
                        }
                    } else if str_eq(name.as_str(), "List") {
                        let v = match value {
                            Some(v) => v,
                            None => String::new(),
                        };
                        let numbered = str_eq(v.as_str(), "0") || str_eq(v.as_str(), "1") || str_eq(v.as_str(), "2");
                        if numbered {
                            match label {
                                Some(n) => {
                                    push_param(&mut params, String::new(), n);
                                    list_to_label = str_eq(v.as_str(), "2");
                                },
                                None => {
                                    return None;
                                },
                            }
                        } else if str_eq(v.as_str(), "3") {
                            match label {
                                Some(n) => {
                                    calculation_label = n;
                                },
                                None => {
                                    return None;
                                },
                            }
                        }
                    } else if str_eq(name.as_str(), "Initial") {
                        match value {
                            Some(v) => {
                                initial = v;
                            },
                            None => {
                                return None;
                            },
                        }
                    } else if str_eq(name.as_str(), "increment") {
                        match value {
                            Some(v) => {
                                interval = v;
                            },
                            None => {
                                return None;
                            },
                        }
                    }
                },
                _ => {},
            },
        }
    }
    if step.unicode_len() == 0 {
        return Some(None);
    }
    let ghost st = ReplaceScan {
        step: step@,
        params: params.deep_view(),
        calculation: calculation@,
        calculation_label: calculation_label@,
        initial: initial@,
        interval: interval@,
        list_to_label,
    };
    if calculation.unicode_len() > 0 {
        push_param(&mut params, calculation_label, calculation);
    }
    if initial.unicode_len() > 0 {
        push_param(&mut params, string_of("Initial"), initial);
    }
    if interval.unicode_len() > 0 {
        push_param(&mut params, string_of("Interval"), interval);
    }
    assert(params.deep_view() == replace_params(st));
    let ghost all = params.deep_view();
    let mut parts: Vec<String> = Vec::new();
    let mut i: usize = 0;
    assert(parts.deep_view() =~= all.take(0).map_values(|p: (Seq<char>, Seq<char>)| replace_part(p)));
    while i < params.len()
        invariant
            all == params.deep_view(),
            i <= params.len(),
            ": "@.len() > 0,
            parts.deep_view() == all.take(i as int).map_values(|p: (Seq<char>, Seq<char>)| replace_part(p)),
        decreases params.len() - i,
    {
        assert(all[i as int] == params@[i as int].deep_view());
        proof {
            reveal_strlit("");
            assert(""@ =~= Seq::<char>::empty());
        }
        let key = params[i].0.as_str();
        let value = params[i].1.as_str();
        let part = if key.unicode_len() == 0 {
            replace(value, ": ", "")
        } else {
            concat3(replace(key, ": ", "").as_str(), ": ", value)
        };
        let ghost before = parts.deep_view();
        parts.push(part);
        assert(parts.deep_view() =~= before.push(replace_part(all[i as int])));
        assert(all.take(i + 1).map_values(|p: (Seq<char>, Seq<char>)| replace_part(p))
            =~= all.take(i as int).map_values(|p: (Seq<char>, Seq<char>)| replace_part(p)).push(replace_part(all[i as int])));
        i = i + 1;
    }
    assert(all.take(i as int) =~= all);
    Some(Some(write_bracketed(step.as_str(), &parts)))
}

/// Whether the Replace Field Contents step `step` can be shown.
pub open spec fn replace_readable(step: Seq<char>) -> bool {
    replace_outcome(xml_events(step)) is Some
}

/// The line of the Replace Field Contents step whose XML is `step`.
pub fn sanitize(step: &str) -> (res: Option<String>)
    requires
        replace_readable(step@),
    ensures
        Some(res.deep_view()) == replace_outcome(xml_events(step@)),
{
    let events = parse_events(step);
    match replace_line(&events) {
        Some(line) => line,
        None => None,
    }
}

/// The line of the Replace Field Contents step whose XML is `step`, as [`sanitize`] gives it;
/// `None` where it cannot be shown.
pub fn sanitize_checked(step: &str) -> (res: Option<Option<String>>)
    ensures
        res.deep_view() == replace_outcome(xml_events(step@)),
{
    let events = parse_events(step);
    match replace_line(&events) {
        Some(_) => Some(sanitize(step)),
        None => None,
    }
}

} // verus!
