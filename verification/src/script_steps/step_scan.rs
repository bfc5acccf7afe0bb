//! Reading a whole step's events in one pass, with calculations read by their own parser.
use vstd::prelude::*;

use crate::script_steps::parameters::calculation::{calculation_display, calculation_scan, calculation_steps, Calculation};
use crate::text::{concat, concat3, join, join_seq, str_eq, string_of};
use crate::xml::{first_attribute, get_attribute, lemma_element_fold_bounds, Attributes, EventView, XmlEvent, XmlReader};

verus! {

/// Reads a step's events from `pos` on with `state`: a start tag that `nested` picks opens a
/// calculation, which is read whole and whose formula `on_calc` takes; any other start tag goes
/// to `on_start`. `None` where either gives up, which is where the step cannot be shown.
pub open spec fn calc_scan<S>(
    evs: Seq<EventView>,
    pos: int,
    state: S,
    nested: spec_fn(Seq<char>, Attributes) -> bool,
    on_calc: spec_fn(S, Seq<char>, Attributes, Option<Seq<char>>) -> Option<S>,
    on_start: spec_fn(S, Seq<char>, Attributes) -> Option<S>,
) -> Option<S>
    decreases evs.len() - pos,
{
    if pos < 0 || pos >= evs.len() {
        Some(state)
    } else {
        match evs[pos] {
            EventView::Start(name, attributes) => if nested(name, attributes) {
                let (calculation, end) = calculation_scan(evs, pos + 1);
                proof {
                    lemma_element_fold_bounds(evs, pos + 1, 1, (None, false), calculation_steps());
                }
                match on_calc(state, name, attributes, calculation) {
                    Some(next) => calc_scan(evs, end, next, nested, on_calc, on_start),
                    None => None,
                }
            } else {
                match on_start(state, name, attributes) {
                    Some(next) => calc_scan(evs, pos + 1, next, nested, on_calc, on_start),
                    None => None,
                }
            },
            _ => calc_scan(evs, pos + 1, state, nested, on_calc, on_start),
        }
    }
}

/// The attributes of the first `<Step>` start tag from `pos` on, if there is one.
pub open spec fn first_step(evs: Seq<EventView>, pos: int) -> Option<Attributes>
    decreases evs.len() - pos,
{
    if pos < 0 || pos >= evs.len() {
        None
    } else {
        match evs[pos] {
            EventView::Start(name, attributes) if name == "Step"@ => Some(attributes),
            _ => first_step(evs, pos + 1),
        }
    }
}

/// The attributes of the first `<Step>` start tag of `events`, if there is one.
pub fn find_first_step(events: &Vec<XmlEvent>) -> (res: Option<&Vec<(String, String)>>)
    ensures
        res.deep_view() == first_step(events.deep_view(), 0),
{
    let ghost evs = events.deep_view();
    let mut i: usize = 0;
    while i < events.len()
        invariant
            evs == events.deep_view(),
            i <= events.len(),
            first_step(evs, i as int) == first_step(evs, 0),
        decreases events.len() - i,
    {
        if let XmlEvent::Start { name, attributes } = &events[i] {
            if str_eq(name.as_str(), "Step") {
                return Some(attributes);
            }
        }
        i = i + 1;
    }
    None
}

/// The step that reads no calculation.
pub open spec fn never() -> spec_fn(Seq<char>, Attributes) -> bool {
    |name: Seq<char>, a: Attributes| false
}

/// Reads a step's events from `pos` on with `state`, each event going to `step`; `None` where
/// `step` gives up, which is where the step cannot be shown.
pub open spec fn event_fold<S>(evs: Seq<EventView>, pos: int, state: S, step: spec_fn(S, EventView) -> Option<S>) -> Option<S>
    decreases evs.len() - pos,
{
    if pos < 0 || pos >= evs.len() {
        Some(state)
    } else {
        match step(state, evs[pos]) {
            Some(next) => event_fold(evs, pos + 1, next, step),
            None => None,
        }
    }
}

/// The reading of a calculation that keeps the state (for steps that read none).
pub open spec fn keep<S>() -> spec_fn(S, Seq<char>, Attributes, Option<Seq<char>>) -> Option<S> {
    |f: S, name: Seq<char>, a: Attributes, calc: Option<Seq<char>>| Some(f)
}

/// Whether a start tag opens a calculation.
pub open spec fn at_calculation() -> spec_fn(Seq<char>, Attributes) -> bool {
    |name: Seq<char>, a: Attributes| name == "Calculation"@
}

/// The name of a `<Step>` tag, or empty.
pub open spec fn step_name(attributes: Attributes) -> Seq<char> {
    match first_attribute(attributes, "name"@) {
        Some(n) => n,
        None => Seq::empty(),
    }
}

/// The name of a `<Step>` tag, or empty.
pub fn read_step_name(attributes: &Vec<(String, String)>) -> (res: String)
    ensures
        res@ == step_name(attributes.deep_view()),
{
    match get_attribute(attributes, "name") {
        Some(n) => n,
        None => String::new(),
    }
}

/// Whether a start tag is a `<Parameter>` whose `type` is `kind`.
pub open spec fn is_parameter(name: Seq<char>, attributes: Attributes, kind: Seq<char>) -> bool {
    name == "Parameter"@ && first_attribute(attributes, "type"@) == Some(kind)
}

/// `labelled` with `label` before it, where there is one.
pub open spec fn with_label(parts: Seq<Seq<char>>, label: Seq<char>, value: Option<Seq<char>>) -> Seq<Seq<char>> {
    match value {
        Some(v) => parts.push(label + v),
        None => parts,
    }
}

/// Adds `label` and `value` to `parts`, where there is a value.
pub fn push_labelled(parts: &mut Vec<String>, label: &str, value: Option<String>)
    ensures
        final(parts).deep_view() == with_label(old(parts).deep_view(), label@, value.deep_view()),
{
    if let Some(v) = value {
        let ghost before = parts.deep_view();
        parts.push(concat(label, v.as_str()));
        assert(parts.deep_view() =~= before.push(label@ + v@));
    }
}

/// Adds `text` to `parts`.
pub fn push_text(parts: &mut Vec<String>, text: &str)
    ensures
        final(parts).deep_view() == old(parts).deep_view().push(text@),
{
    let ghost before = parts.deep_view();
    parts.push(string_of(text));
    assert(parts.deep_view() =~= before.push(text@));
}

/// `name [ parts ]`.
pub open spec fn bracketed(name: Seq<char>, parts: Seq<Seq<char>>) -> Seq<char> {
    name + " [ "@ + join_seq(parts, " ; "@) + " ]"@
}

/// `name [ parts ]`.
pub fn write_bracketed(name: &str, parts: &Vec<String>) -> (res: String)
    ensures
        res@ == bracketed(name@, parts.deep_view()),
{
    let joined = join(parts, " ; ");
    let mut out = concat3(name, " [ ", joined.as_str());
    out.append(" ]");
    out
}

/// Reads a calculation whose start tag `e` was the last event read: the raw formula (`None`
/// without one), with the reader after its end tag.
pub fn read_calculation(reader: &mut XmlReader, e: &XmlEvent) -> (res: Option<String>)
    ensures
        final(reader).events == old(reader).events,
        (res.deep_view(), final(reader).pos as int) == calculation_scan(old(reader).evs(), old(reader).pos as int),
        old(reader).pos <= old(reader).evs().len() ==> old(reader).pos <= final(reader).pos <= old(reader).evs().len(),
{
    proof {
        if old(reader).pos <= old(reader).evs().len() {
            lemma_element_fold_bounds(old(reader).evs(), old(reader).pos as int, 1, (None, false), calculation_steps());
        }
    }
    match Calculation::from_xml(reader, e) {
        Ok(c) => c.calculation,
        Err(_) => None,
    }
}

/// A formula, or empty without one.
pub open spec fn raw_formula(calculation: Option<Seq<char>>) -> Seq<char> {
    match calculation {
        Some(c) => c,
        None => Seq::empty(),
    }
}

/// Reads a calculation whose start tag `e` was the last event read: the formula, or empty.
pub fn read_formula(reader: &mut XmlReader, e: &XmlEvent) -> (res: String)
    ensures
        final(reader).events == old(reader).events,
        res@ == raw_formula(calculation_scan(old(reader).evs(), old(reader).pos as int).0),
        final(reader).pos == calculation_scan(old(reader).evs(), old(reader).pos as int).1,
        old(reader).pos <= old(reader).evs().len() ==> old(reader).pos <= final(reader).pos <= old(reader).evs().len(),
{
    match read_calculation(reader, e) {
        Some(c) => c,
        None => String::new(),
    }
}

/// Reads a calculation whose start tag `e` was the last event read: the formula where it is not empty.
pub fn read_calculation_display(reader: &mut XmlReader, e: &XmlEvent) -> (res: Option<String>)
    ensures
        final(reader).events == old(reader).events,
        res.deep_view() == calculation_display(calculation_scan(old(reader).evs(), old(reader).pos as int).0),
        final(reader).pos == calculation_scan(old(reader).evs(), old(reader).pos as int).1,
        old(reader).pos <= old(reader).evs().len() ==> old(reader).pos <= final(reader).pos <= old(reader).evs().len(),
{
    proof {
        if old(reader).pos <= old(reader).evs().len() {
            lemma_element_fold_bounds(old(reader).evs(), old(reader).pos as int, 1, (None, false), calculation_steps());
        }
    }
    match Calculation::from_xml(reader, e) {
        Ok(c) => c.display(),
        Err(_) => None,
    }
}

} // verus!
