use vstd::prelude::*;

use crate::script_steps::parameters::calculation::{calculation_display, calculation_scan, calculation_steps, Calculation};
use crate::script_steps::parameters::target::{lemma_target_scan_bounds, target_scan, Target};
use crate::text::{concat3, join, join_seq, str_eq, string_of};
use crate::xml::{attribute_is, first_attribute, lemma_element_fold_bounds, EventView, XmlEvent, XmlReader};

verus! {

/// An input field of a custom dialog.
#[derive(Debug)]
pub struct DialogField {
    pub target: Option<String>,
    pub label: Option<String>,
    pub password: bool,
}

/// The target, label and password flag read so far.
pub type DialogFields = (Option<Seq<char>>, Option<Seq<char>>, bool);

/// Reads the rest of a dialog field from `pos` on, with `depth` elements open: a `Target`
/// parameter inside gives the target and a `Label` parameter the label (each read whole);
/// a `<Boolean type="Password" value="True">` marks a password field.
pub open spec fn dialog_field_scan(evs: Seq<EventView>, pos: int, depth: int, fields: DialogFields) -> (DialogFields, int)
    decreases evs.len() - pos,
{
    if pos < 0 || pos >= evs.len() {
        (fields, pos)
    } else {
        let (target, label, password) = fields;
        match evs[pos] {
            EventView::Start(name, attributes) => if name == "Parameter"@ && first_attribute(attributes, "type"@) == Some("Target"@) {
                let (t, end) = target_scan(evs, pos + 1, 1, None);
                proof {
                    lemma_target_scan_bounds(evs, pos + 1, 1, None);
                }
                dialog_field_scan(evs, end, depth, (t, label, password))
            } else if name == "Parameter"@ && first_attribute(attributes, "type"@) == Some("Label"@) {
                let (calculation, end) = calculation_scan(evs, pos + 1);
                proof {
                    lemma_element_fold_bounds(evs, pos + 1, 1, (None, false), calculation_steps());
                }
                dialog_field_scan(evs, end, depth, (target, calculation_display(calculation), password))
            } else if name == "Boolean"@ && first_attribute(attributes, "type"@) == Some("Password"@)
                && first_attribute(attributes, "value"@) == Some("True"@) {
                dialog_field_scan(evs, pos + 1, depth + 1, (target, label, true))
            } else {
                dialog_field_scan(evs, pos + 1, depth + 1, fields)
            },
            EventView::End(_) => if depth <= 1 {
                (fields, pos + 1)
            } else {
                dialog_field_scan(evs, pos + 1, depth - 1, fields)
            },
            _ => dialog_field_scan(evs, pos + 1, depth, fields),
        }
    }
}

/// A dialog field scan ends between where it starts and the end of the list, past its start
/// where there is an event to read.
pub proof fn lemma_dialog_field_scan_bounds(evs: Seq<EventView>, pos: int, depth: int, fields: DialogFields)
    requires
        0 <= pos <= evs.len(),
    ensures
        pos <= dialog_field_scan(evs, pos, depth, fields).1 <= evs.len(),
        pos < evs.len() ==> pos < dialog_field_scan(evs, pos, depth, fields).1,
    decreases evs.len() - pos,
{
    if pos < evs.len() {
        let (target, label, password) = fields;
        match evs[pos] {
            EventView::Start(name, attributes) => if name == "Parameter"@ && first_attribute(attributes, "type"@) == Some("Target"@) {
                let (t, end) = target_scan(evs, pos + 1, 1, None);
                lemma_target_scan_bounds(evs, pos + 1, 1, None);
                lemma_dialog_field_scan_bounds(evs, end, depth, (t, label, password));
            } else if name == "Parameter"@ && first_attribute(attributes, "type"@) == Some("Label"@) {
                let (calculation, end) = calculation_scan(evs, pos + 1);
                lemma_element_fold_bounds(evs, pos + 1, 1, (None, false), calculation_steps());
                lemma_dialog_field_scan_bounds(evs, end, depth, (target, calculation_display(calculation), password));
            } else if name == "Boolean"@ && first_attribute(attributes, "type"@) == Some("Password"@)
                && first_attribute(attributes, "value"@) == Some("True"@) {
                lemma_dialog_field_scan_bounds(evs, pos + 1, depth + 1, (target, label, true));
            } else {
                lemma_dialog_field_scan_bounds(evs, pos + 1, depth + 1, fields);
            },
            EventView::End(_) => if depth > 1 {
                lemma_dialog_field_scan_bounds(evs, pos + 1, depth - 1, fields);
            },
            _ => lemma_dialog_field_scan_bounds(evs, pos + 1, depth, fields),
        }
    }
}

/// The number of a field parameter type.
pub open spec fn field_number(field_type: Seq<char>) -> Seq<char> {
    if field_type == "Field1"@ {
        "1"@
    } else if field_type == "Field2"@ {
        "2"@
    } else if field_type == "Field3"@ {
        "3"@
    } else {
        "?"@
    }
}

/// A field with a target is shown as `Input n: target`, then `Label n: label` where the label
/// is not empty, then `Password` for a password field, separated by ` ; `.
pub open spec fn dialog_field_display(fields: DialogFields, field_type: Seq<char>) -> Option<Seq<char>> {
    let (target, label, password) = fields;
    let n = field_number(field_type);
    match target {
        None => None,
        Some(t) => {
            let input = seq!["Input "@ + n + ": "@ + t];
            let with_label = match label {
                Some(l) => if l.len() > 0 {
                    input.push("Label "@ + n + ": "@ + l)
                } else {
                    input
                },
                None => input,
            };
            let parts = if password {
                with_label.push("Password"@)
            } else {
                with_label
            };
            Some(join_seq(parts, " ; "@))
        },
    }
}

impl DialogField {
    /// The target, label and password flag, as mathematical values.
    pub open spec fn fields(&self) -> DialogFields {
        (self.target.deep_view(), self.label.deep_view(), self.password)
    }

    /// Reads a dialog field parameter whose start tag was the last event read.
    pub fn from_xml(reader: &mut XmlReader, _e: &XmlEvent) -> (item: DialogField)
        ensures
            final(reader).events == old(reader).events,
            (item.fields(), final(reader).pos as int) == dialog_field_scan(old(reader).evs(), old(reader).pos as int, 1, (None, None, false)),
    {
        let ghost evs = reader.evs();
        let ghost start = reader.pos as int;
        let mut depth: u128 = 1;
        let mut item = DialogField { target: None, label: None, password: false };
        loop
            invariant_except_break
                1 <= depth <= reader.pos + 1,
                dialog_field_scan(evs, reader.pos as int, depth as int, item.fields())
                    == dialog_field_scan(evs, start, 1, (None, None, false)),
            invariant
                reader.events == old(reader).events,
                evs == reader.evs(),
            ensures
                (item.fields(), reader.pos as int) == dialog_field_scan(evs, start, 1, (None, None, false)),
            decreases evs.len() - reader.pos,
        {
            let ghost pos = reader.pos as int;
            match reader.read_event() {
                None => break,
                Some(event) => match event {
                    XmlEvent::Start { name, attributes } => {
                        let is_parameter = str_eq(name.as_str(), "Parameter");
                        if is_parameter && attribute_is(attributes, "type", "Target") {
                            proof {
                                lemma_target_scan_bounds(evs, pos + 1, 1, None);
                            }
                            item.target = Target::from_xml(reader, event).display();
                        } else if is_parameter && attribute_is(attributes, "type", "Label") {
                            proof {
                                lemma_element_fold_bounds(evs, pos + 1, 1, (None, false), calculation_steps());
                            }
                            if let Ok(calculation) = Calculation::from_xml(reader, event) {
                                item.label = calculation.display();
                            }
                        } else {
                            if str_eq(name.as_str(), "Boolean") && attribute_is(attributes, "type", "Password")
                                && attribute_is(attributes, "value", "True") {
                                item.password = true;
                            }
                            depth = depth + 1;
                        }
                    },
                    XmlEvent::End { .. } => {
                        depth = depth - 1;
                        if depth == 0 {
                            break;
                        }
                    },
                    _ => {},
                },
            }
        }
        item
    }

    /// The field as it is shown, where it has a target.
    pub fn display(&self, field_type: &str) -> (res: Option<String>)
        ensures
            res.deep_view() == dialog_field_display(self.fields(), field_type@),
    {
        let target = match &self.target {
            Some(t) => t,
            None => {
                return None;
            },
        };
        let number: &str = if str_eq(field_type, "Field1") {
            "1"
        } else if str_eq(field_type, "Field2") {
            "2"
        } else if str_eq(field_type, "Field3") {
            "3"
        } else {
            "?"
        };
        assert(number@ == field_number(field_type@));
        let ghost n = number@;
        let mut parts: Vec<String> = Vec::new();
        let mut input = concat3("Input ", number, ": ");
        input.append(target.as_str());
        parts.push(input);
        let ghost input_part = parts.deep_view();
        assert(input_part =~= seq!["Input "@ + field_number(field_type@) + ": "@ + target@]);
        if let Some(label) = &self.label {
            if label.unicode_len() > 0 {
                let mut l = concat3("Label ", number, ": ");
                l.append(label.as_str());
                parts.push(l);
                assert(parts.deep_view() =~= input_part.push("Label "@ + n + ": "@ + label@));
            }
        }
        let ghost labelled = parts.deep_view();
        if self.password {
            parts.push(string_of("Password"));
            assert(parts.deep_view() =~= labelled.push("Password"@));
        }
        Some(join(&parts, " ; "))
    }
}

} // verus!
