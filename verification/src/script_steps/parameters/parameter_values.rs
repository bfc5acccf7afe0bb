use vstd::prelude::*;

use crate::script_steps::parameters::animation::{animation_display, animation_scan, animation_steps, Animation};
use crate::script_steps::parameters::boolean::{boolean_display, boolean_scan, boolean_steps, Boolean};
use crate::script_steps::parameters::button::{button_display, button_scan, button_steps, Button};
use crate::script_steps::parameters::calculation::{calculation_display, calculation_scan, calculation_steps, Calculation};
use crate::script_steps::parameters::comment::{comment_scan, comment_steps, Comment};
use crate::script_steps::parameters::data_source_reference::{data_source_display, data_source_scan, data_source_steps, DataSourceReference};
use crate::script_steps::parameters::dialog_field::{dialog_field_display, dialog_field_scan, lemma_dialog_field_scan_bounds, DialogField};
use crate::script_steps::parameters::field_reference::{field_display, field_scan, field_steps, FieldReference};
use crate::script_steps::parameters::layout_reference::{lemma_layout_scan_bounds, layout_display, layout_parameter_scan, LayoutReferenceContainer};
use crate::script_steps::parameters::list::{list_scan, list_steps, List};
use crate::script_steps::parameters::related::{lemma_related_scan_bounds, related_scan, Related};
use crate::script_steps::parameters::script_reference::{script_reference_display, script_reference_scan, script_reference_steps, ScriptReference};
use crate::script_steps::parameters::target::{lemma_target_scan_bounds, target_scan, Target};
use crate::script_steps::parameters::window_reference::{lemma_window_scan_bounds, push_if_some, push_some, window_scan, WindowReference};
use crate::text::{concat3, join, join_seq, str_eq};
use crate::xml::{event_attribute, first_attribute, get_attribute, lemma_element_fold_bounds, unescape, xml_unescaped, EventView, XmlEvent, XmlReader};

verus! {

/// The parameters of a script step, as they are shown.
#[derive(Debug)]
pub struct ParameterValues {
    pub step_id: u32,
    pub parameters: Vec<String>,
}

/// What reading one parameter comes to.
pub enum ParameterOutcome {
    /// The parameter was read up to `end`; `shown` is how it is shown, if at all.
    Shown(Option<Seq<char>>, int),
    /// The parameter's type is not one that is read.
    NotParsed,
    /// The parameter is a comment that does not unescape.
    Fails,
}

/// Whether `kind` is a parameter type that holds a calculation shown with its type as label.
pub open spec fn is_labelled_calculation(kind: Seq<char>) -> bool {
    kind == "Name"@ || kind == "Condition"@ || kind == "ErrorCode"@ || kind == "ErrorMessage"@
        || kind == "CustomDebugInfo"@ || kind == "Title"@ || kind == "Message"@
}

/// Whether `kind` is a button parameter type.
pub open spec fn is_button(kind: Seq<char>) -> bool {
    kind == "Button1"@ || kind == "Button2"@ || kind == "Button3"@
}

/// Whether `kind` is a dialog field parameter type.
pub open spec fn is_dialog_field(kind: Seq<char>) -> bool {
    kind == "Field1"@ || kind == "Field2"@ || kind == "Field3"@
}

/// A list of parts shown where it is not empty.
pub open spec fn non_empty(text: Seq<char>) -> Option<Seq<char>> {
    if text.len() == 0 {
        None
    } else {
        Some(text)
    }
}

/// `d` with `label: ` before it.
pub open spec fn labelled(label: Seq<char>, d: Option<Seq<char>>) -> Option<Seq<char>> {
    match d {
        Some(v) => Some(label + ": "@ + v),
        None => None,
    }
}

/// Reading the parameter of type `kind` of the step `step_id`, opened by `e`, whose content
/// starts at `pos`: each type is read by its own parser and shown as that parser shows it.
pub open spec fn parameter_outcome(evs: Seq<EventView>, pos: int, e: EventView, kind: Seq<char>, step_id: u32) -> ParameterOutcome {
    if kind == "Animation"@ {
        let (v, end) = animation_scan(evs, pos);
        ParameterOutcome::Shown(animation_display(v), end)
    } else if kind == "Boolean"@ {
        let (f, end) = boolean_scan(evs, pos);
        ParameterOutcome::Shown(boolean_display(step_id, f), end)
    } else if kind == "List"@ {
        let (name, end) = list_scan(evs, pos, step_id);
        ParameterOutcome::Shown(name, end)
    } else if kind == "Target"@ {
        let (t, end) = target_scan(evs, pos, 1, None);
        ParameterOutcome::Shown(labelled("Target"@, t), end)
    } else if kind == "Calculation"@ {
        let (c, end) = calculation_scan(evs, pos);
        ParameterOutcome::Shown(calculation_display(c), end)
    } else if is_labelled_calculation(kind) {
        let (c, end) = calculation_scan(evs, pos);
        ParameterOutcome::Shown(labelled(kind, calculation_display(c)), end)
    } else if kind == "LayoutReferenceContainer"@ {
        let (f, end) = layout_parameter_scan(evs, pos, e);
        ParameterOutcome::Shown(layout_display(f), end)
    } else if kind == "FieldReference"@ {
        let (f, end) = field_scan(evs, pos, e);
        ParameterOutcome::Shown(Some(field_display(f)), end)
    } else if kind == "Comment"@ {
        let (raw, end) = comment_scan(evs, pos);
        match xml_unescaped(raw) {
            Some(c) => ParameterOutcome::Shown(Some(c), end),
            None => ParameterOutcome::Fails,
        }
    } else if kind == "WindowReference"@ {
        let (parts, end) = window_scan(evs, pos, 1, Seq::empty());
        ParameterOutcome::Shown(non_empty(join_seq(parts, " ; "@)), end)
    } else if kind == "Related"@ {
        let (parts, end) = related_scan(evs, pos, 1, Seq::empty());
        ParameterOutcome::Shown(non_empty(join_seq(parts, " ; "@)), end)
    } else if kind == "ScriptReference"@ {
        let (f, end) = script_reference_scan(evs, pos);
        ParameterOutcome::Shown(script_reference_display(f), end)
    } else if kind == "DataSourceReference"@ {
        let (f, end) = data_source_scan(evs, pos);
        ParameterOutcome::Shown(data_source_display(f), end)
    } else if is_button(kind) {
        let (label, _commit, end) = button_scan(evs, pos, e);
        ParameterOutcome::Shown(button_display(label, kind), end)
    } else if is_dialog_field(kind) {
        let (f, end) = dialog_field_scan(evs, pos, 1, (None, None, false));
        ParameterOutcome::Shown(dialog_field_display(f, kind), end)
    } else {
        ParameterOutcome::NotParsed
    }
}

/// A parameter of type `Name`, `Condition`, `ErrorCode`, `ErrorMessage`, `CustomDebugInfo`,
/// `Title` or `Message` holds a calculation and is shown as its type, `: ` and the
/// calculation's formula (nothing where the formula is empty); it is never left unread.
pub proof fn law_labelled_calculations_are_shown(evs: Seq<EventView>, pos: int, e: EventView, kind: Seq<char>, step_id: u32)
    requires
        kind == "Name"@ || kind == "Condition"@ || kind == "ErrorCode"@ || kind == "ErrorMessage"@
            || kind == "CustomDebugInfo"@ || kind == "Title"@ || kind == "Message"@,
    ensures
        parameter_outcome(evs, pos, e, kind, step_id) == ParameterOutcome::Shown(
            match calculation_display(calculation_scan(evs, pos).0) {
                Some(d) => Some(kind + ": "@ + d),
                None => None,
            },
            calculation_scan(evs, pos).1,
        ),
{
    reveal_strlit("Name");
    reveal_strlit("Condition");
    reveal_strlit("ErrorCode");
    reveal_strlit("ErrorMessage");
    reveal_strlit("CustomDebugInfo");
    reveal_strlit("Title");
    reveal_strlit("Message");
    reveal_strlit("Animation");
    reveal_strlit("Boolean");
    reveal_strlit("List");
    reveal_strlit("Target");
    reveal_strlit("Calculation");
    assert("Name"@.len() == 4 && "Condition"@.len() == 9 && "ErrorCode"@.len() == 9 && "ErrorMessage"@.len() == 12);
    assert("CustomDebugInfo"@.len() == 15 && "Title"@.len() == 5 && "Message"@.len() == 7);
    assert("Animation"@.len() == 9 && "Boolean"@.len() == 7 && "List"@.len() == 4 && "Target"@.len() == 6);
    assert("Calculation"@.len() == 11);
    assert("Name"@ != "List"@) by {
        assert("Name"@[0] != "List"@[0]);
    }
    assert("Condition"@ != "Animation"@) by {
        assert("Condition"@[0] != "Animation"@[0]);
    }
    assert("ErrorCode"@ != "Animation"@) by {
        assert("ErrorCode"@[0] != "Animation"@[0]);
    }
    assert("Message"@ != "Boolean"@) by {
        assert("Message"@[0] != "Boolean"@[0]);
    }
}

/// Reading a parameter ends between where it starts and the end of the list.
pub proof fn lemma_parameter_outcome_bounds(evs: Seq<EventView>, pos: int, e: EventView, kind: Seq<char>, step_id: u32)
    requires
        0 <= pos <= evs.len(),
    ensures
        parameter_outcome(evs, pos, e, kind, step_id) matches ParameterOutcome::Shown(_, end) ==> pos <= end <= evs.len(),
{
    lemma_element_fold_bounds(evs, pos, 1, None, animation_steps());
    lemma_element_fold_bounds(evs, pos, 1, (None, None, None), boolean_steps());
    lemma_element_fold_bounds(evs, pos, 1, None, list_steps(step_id));
    lemma_target_scan_bounds(evs, pos, 1, None);
    lemma_element_fold_bounds(evs, pos, 1, (None, false), calculation_steps());
    lemma_layout_scan_bounds(evs, pos, 1, (match event_attribute(e, "value"@) {
        Some(v) => v,
        None => Seq::empty(),
    }, None));
    lemma_element_fold_bounds(evs, pos, 1, (None, event_attribute(e, "name"@), None), field_steps());
    lemma_element_fold_bounds(evs, pos, 1, Seq::empty(), comment_steps());
    lemma_window_scan_bounds(evs, pos, 1, Seq::empty());
    lemma_related_scan_bounds(evs, pos, 1, Seq::empty());
    lemma_element_fold_bounds(evs, pos, 1, (None, None), script_reference_steps());
    lemma_element_fold_bounds(evs, pos, 1, (None, None), data_source_steps());
    lemma_element_fold_bounds(evs, pos, 1, (event_attribute(e, "value"@), false, false), button_steps());
    lemma_dialog_field_scan_bounds(evs, pos, 1, (None, None, false));
}

/// The note for a parameter whose type is not read.
pub open spec fn not_parsed(kind: Seq<char>) -> Seq<char> {
    "⚠️ PARAMETER \""@ + kind + "\" NOT PARSED ⚠️"@
}

/// Reads the rest of a parameter list from `pos` on, with `depth` elements open, collecting how
/// each `<Parameter>` directly inside it is shown; `None` where a comment does not unescape.
/// A parameter of a type that is not read leaves a note, and its content is read on as part of
/// the list.
pub open spec fn parameter_values_scan(evs: Seq<EventView>, pos: int, depth: int, step_id: u32, parts: Seq<Seq<char>>) -> Option<(Seq<Seq<char>>, int)>
    decreases evs.len() - pos,
{
    if pos < 0 || pos >= evs.len() {
        Some((parts, pos))
    } else {
        match evs[pos] {
            EventView::Start(name, attributes) => if depth != 1 || name != "Parameter"@ {
                parameter_values_scan(evs, pos + 1, depth + 1, step_id, parts)
            } else {
                match first_attribute(attributes, "type"@) {
                    None => parameter_values_scan(evs, pos + 1, depth + 1, step_id, parts),
                    Some(kind) => match parameter_outcome(evs, pos + 1, evs[pos], kind, step_id) {
                        ParameterOutcome::NotParsed => parameter_values_scan(evs, pos + 1, depth + 1, step_id, parts.push(not_parsed(kind))),
                        ParameterOutcome::Fails => None,
                        ParameterOutcome::Shown(shown, end) => {
                            proof {
                                lemma_parameter_outcome_bounds(evs, pos + 1, evs[pos], kind, step_id);
                            }
                            parameter_values_scan(evs, end, depth, step_id, push_some(parts, shown))
                        },
                    },
                }
            },
            EventView::End(_) => if depth <= 1 {
                Some((parts, pos + 1))
            } else {
                parameter_values_scan(evs, pos + 1, depth - 1, step_id, parts)
            },
            _ => parameter_values_scan(evs, pos + 1, depth, step_id, parts),
        }
    }
}

/// A parameter list scan that succeeds ends between where it starts and the end of the list,
/// past its start where there is an event to read.
pub proof fn lemma_parameter_values_scan_bounds(evs: Seq<EventView>, pos: int, depth: int, step_id: u32, parts: Seq<Seq<char>>)
    requires
        0 <= pos <= evs.len(),
    ensures
        parameter_values_scan(evs, pos, depth, step_id, parts) matches Some((_, end)) ==> pos <= end <= evs.len()
            && (pos < evs.len() ==> pos < end),
    decreases evs.len() - pos,
{
    if pos < evs.len() {
        match evs[pos] {
            EventView::Start(name, attributes) => if depth != 1 || name != "Parameter"@ {
                lemma_parameter_values_scan_bounds(evs, pos + 1, depth + 1, step_id, parts);
            } else {
                match first_attribute(attributes, "type"@) {
                    None => lemma_parameter_values_scan_bounds(evs, pos + 1, depth + 1, step_id, parts),
                    Some(kind) => match parameter_outcome(evs, pos + 1, evs[pos], kind, step_id) {
                        ParameterOutcome::NotParsed => lemma_parameter_values_scan_bounds(evs, pos + 1, depth + 1, step_id, parts.push(not_parsed(kind))),
                        ParameterOutcome::Fails => {},
                        ParameterOutcome::Shown(shown, end) => {
                            lemma_parameter_outcome_bounds(evs, pos + 1, evs[pos], kind, step_id);
                            lemma_parameter_values_scan_bounds(evs, end, depth, step_id, push_some(parts, shown));
                        },
                    },
                }
            },
            EventView::End(_) => if depth > 1 {
                lemma_parameter_values_scan_bounds(evs, pos + 1, depth - 1, step_id, parts);
            },
            _ => lemma_parameter_values_scan_bounds(evs, pos + 1, depth, step_id, parts),
        }
    }
}

/// What reading one parameter came to.
enum ParameterRead {
    Shown(Option<String>),
    NotParsed,
    Fails,
}

/// Reads the parameter of type `kind`, opened by `e`, whose start tag was the last event read.
fn read_parameter(reader: &mut XmlReader, e: &XmlEvent, kind: &str, step_id: u32) -> (res: ParameterRead)
    ensures
        final(reader).events == old(reader).events,
        match parameter_outcome(old(reader).evs(), old(reader).pos as int, e@, kind@, step_id) {
            ParameterOutcome::Shown(shown, end) => res matches ParameterRead::Shown(s) && s.deep_view() == shown
                && final(reader).pos == end,
            ParameterOutcome::NotParsed => res is NotParsed && final(reader).pos == old(reader).pos,
            ParameterOutcome::Fails => res is Fails,
        },
{
    if str_eq(kind, "Animation") {
        ParameterRead::Shown(Animation::from_xml(reader, e).display())
    } else if str_eq(kind, "Boolean") {
        match Boolean::from_xml(reader, e, step_id) {
            Ok(b) => ParameterRead::Shown(b.display()),
            Err(_) => ParameterRead::Shown(None),
        }
    } else if str_eq(kind, "List") {
        match List::from_xml(reader, e, &step_id) {
            Ok(l) => ParameterRead::Shown(l.display()),
            Err(_) => ParameterRead::Shown(None),
        }
    } else if str_eq(kind, "Target") {
        ParameterRead::Shown(match Target::from_xml(reader, e).display() {
            Some(d) => Some(concat3("Target", ": ", d.as_str())),
            None => None,
        })
    } else if str_eq(kind, "Calculation") {
        match Calculation::from_xml(reader, e) {
            Ok(c) => ParameterRead::Shown(c.display()),
            Err(_) => ParameterRead::Shown(None),
        }
    } else if str_eq(kind, "Name") || str_eq(kind, "Condition") || str_eq(kind, "ErrorCode") || str_eq(kind, "ErrorMessage")
        || str_eq(kind, "CustomDebugInfo") || str_eq(kind, "Title") || str_eq(kind, "Message") {
        match Calculation::from_xml(reader, e) {
            Ok(c) => ParameterRead::Shown(match c.display() {
                Some(d) => Some(concat3(kind, ": ", d.as_str())),
                None => None,
            }),
            Err(_) => ParameterRead::Shown(None),
        }
    } else if str_eq(kind, "LayoutReferenceContainer") {
        match LayoutReferenceContainer::from_xml(reader, e) {
            Ok(l) => ParameterRead::Shown(l.display()),
            Err(_) => ParameterRead::Shown(None),
        }
    } else if str_eq(kind, "FieldReference") {
        match FieldReference::from_xml(reader, e) {
            Ok(f) => ParameterRead::Shown(f.display()),
            Err(_) => ParameterRead::Shown(None),
        }
    } else if str_eq(kind, "Comment") {
        match Comment::from_xml_checked(reader, e) {
            Some(c) => ParameterRead::Shown(Some(c)),
            None => ParameterRead::Fails,
        }
    } else if str_eq(kind, "WindowReference") {
        let d = WindowReference::from_xml(reader, e).display();
        ParameterRead::Shown(if d.unicode_len() == 0 { None } else { Some(d) })
    } else if str_eq(kind, "Related") {
        let d = Related::from_xml(reader, e).display();
        ParameterRead::Shown(if d.unicode_len() == 0 { None } else { Some(d) })
    } else if str_eq(kind, "ScriptReference") {
        ParameterRead::Shown(ScriptReference::from_xml(reader, e).display())
    } else if str_eq(kind, "DataSourceReference") {
        match DataSourceReference::from_xml(reader, e) {
            Some(d) => ParameterRead::Shown(d.display()),
            None => ParameterRead::Shown(None),
        }
    } else if str_eq(kind, "Button1") || str_eq(kind, "Button2") || str_eq(kind, "Button3") {
        ParameterRead::Shown(Button::from_xml(reader, e).display(kind))
    } else if str_eq(kind, "Field1") || str_eq(kind, "Field2") || str_eq(kind, "Field3") {
        ParameterRead::Shown(DialogField::from_xml(reader, e).display(kind))
    } else {
        ParameterRead::NotParsed
    }
}

impl ParameterValues {
    /// Reads a parameter list of the step `step_id` whose start tag was the last event read;
    /// `None` where a comment parameter does not unescape.
    fn read(reader: &mut XmlReader, _e: &XmlEvent, step_id: u32) -> (res: Option<ParameterValues>)
        ensures
            final(reader).events == old(reader).events,
            match parameter_values_scan(old(reader).evs(), old(reader).pos as int, 1, step_id, Seq::empty()) {
                Some((parts, end)) => res matches Some(item) && item.step_id == step_id
                    && item.parameters.deep_view() == parts && final(reader).pos == end,
                None => res is None,
            },
    {
        let ghost evs = reader.evs();
        let ghost start = reader.pos as int;
        let mut depth: u128 = 1;
        let mut item = ParameterValues { step_id, parameters: Vec::new() };
        assert(item.parameters.deep_view() =~= Seq::<Seq<char>>::empty());
        loop
            invariant_except_break
                1 <= depth <= reader.pos + 1,
                parameter_values_scan(evs, reader.pos as int, depth as int, step_id, item.parameters.deep_view())
                    == parameter_values_scan(evs, start, 1, step_id, Seq::empty()),
            invariant
                reader.events == old(reader).events,
                evs == reader.evs(),
                start == old(reader).pos,
                item.step_id == step_id,
            ensures
                parameter_values_scan(evs, start, 1, step_id, Seq::empty()) == Some((item.parameters.deep_view(), reader.pos as int)),
            decreases evs.len() - reader.pos,
        {
            let ghost pos = reader.pos as int;
            match reader.read_event() {
                None => break,
                Some(event) => match event {
                    XmlEvent::Start { name, attributes } => {
                        if depth != 1 || !str_eq(name.as_str(), "Parameter") {
                            depth = depth + 1;
                        } else {
                            match get_attribute(attributes, "type") {
                                None => {
                                    depth = depth + 1;
                                },
                                Some(kind) => {
                                    proof {
                                        lemma_parameter_outcome_bounds(evs, pos + 1, evs[pos], kind@, step_id);
                                    }
                                    match read_parameter(reader, event, kind.as_str(), step_id) {
                                        ParameterRead::NotParsed => {
                                            let ghost before = item.parameters.deep_view();
                                            let mut note = concat3("⚠️ PARAMETER \"", kind.as_str(), "\" NOT PARSED ⚠️");
                                            item.parameters.push(note);
                                            assert(item.parameters.deep_view() =~= before.push(not_parsed(kind@)));
                                            depth = depth + 1;
                                        },
                                        ParameterRead::Fails => {
                                            return None;
                                        },
                                        ParameterRead::Shown(shown) => {
                                            push_if_some(&mut item.parameters, shown);
                                        },
                                    }
                                },
                            }
                        }
                    },
                    XmlEvent::End { .. } => {
                        depth = depth - 1;
                        if depth == 0 {
                            break;
                        }
                    },
                    _ => {},
                },
            }
        }
        Some(item)
    }

    /// Reads a parameter list of the step `step_id` whose start tag was the last event read.
    pub fn from_xml(reader: &mut XmlReader, e: &XmlEvent, step_id: u32) -> (item: ParameterValues)
        requires
            parameter_values_scan(old(reader).evs(), old(reader).pos as int, 1, step_id, Seq::empty()) is Some,
        ensures
            final(reader).events == old(reader).events,
            item.step_id == step_id,
            parameter_values_scan(old(reader).evs(), old(reader).pos as int, 1, step_id, Seq::empty())
                == Some((item.parameters.deep_view(), final(reader).pos as int)),
    {
        match Self::read(reader, e, step_id) {
            Some(item) => item,
            None => ParameterValues { step_id, parameters: Vec::new() },
        }
    }

    /// Reads a parameter list as [`ParameterValues::from_xml`] does; `None`, with the reader left
    /// where it was, where a comment parameter in it does not unescape.
    pub fn from_xml_checked(reader: &mut XmlReader, e: &XmlEvent, step_id: u32) -> (res: Option<ParameterValues>)
        ensures
            final(reader).events == old(reader).events,
            match parameter_values_scan(old(reader).evs(), old(reader).pos as int, 1, step_id, Seq::empty()) {
                Some((parts, end)) => res matches Some(item) && item.step_id == step_id
                    && item.parameters.deep_view() == parts && final(reader).pos == end,
                None => res is None && final(reader).pos == old(reader).pos,
            },
    {
        let start = reader.pos;
        let checked = Self::read(reader, e, step_id);
        reader.pos = start;
        match checked {
            Some(_) => Some(Self::from_xml(reader, e, step_id)),
            None => None,
        }
    }

    /// The parameters, separated by ` ; `. The step table has no Revert Transaction, Set Error
    /// Logging or Refresh Window kinds, so no special case for them is made here.
    pub fn display(self) -> (res: String)
        ensures
            res@ == join_seq(self.parameters.deep_view(), " ; "@),
    {
        join(&self.parameters, " ; ")
    }
}

} // verus!
