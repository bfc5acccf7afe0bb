use vstd::prelude::*;
use vstd::string::*;

use crate::script_steps::constants::{id_to_script_step, script_step_of, ScriptStep};
use crate::script_steps::parameters::constants::{OVERRIDE_ESS_LOCKING_CONFLICTS, SELECT_PERFORM, SKIP_DATA_ENTRY_VALIDATION};
use crate::text::{concat3, decimal, decimal_string, parse_u32, parse_u32_spec, str_eq, string_of};
use crate::xml::{element_fold, EventView, XmlEvent, XmlReader};

verus! {

/// A `Boolean` parameter: the option's id and name and whether it is set.
#[derive(Debug)]
pub struct Boolean {
    pub step_id: u32,
    pub id: Option<u32>,
    pub name: Option<String>,
    pub value: Option<bool>,
}

/// The id, name and value that a `Boolean` parameter holds.
pub type BooleanFields = (Option<u32>, Option<Seq<char>>, Option<bool>);

/// What one attribute of a `<Boolean>` tag does to the fields: `id` sets the id where it is a
/// number, `type` the name, and `value` the value where it is `True` or `False`.
pub open spec fn boolean_attribute(fields: BooleanFields, attribute: (Seq<char>, Seq<char>)) -> BooleanFields {
    let (id, name, value) = fields;
    if attribute.0 == "id"@ {
        match parse_u32_spec(attribute.1) {
            Some(n) => (Some(n), name, value),
            None => fields,
        }
    } else if attribute.0 == "type"@ {
        (id, Some(attribute.1), value)
    } else if attribute.0 == "value"@ {
        if attribute.1 == "True"@ {
            (id, name, Some(true))
        } else if attribute.1 == "False"@ {
            (id, name, Some(false))
        } else {
            fields
        }
    } else {
        fields
    }
}

/// [`boolean_attribute`] as a function value.
pub open spec fn boolean_attributes() -> spec_fn(BooleanFields, (Seq<char>, Seq<char>)) -> BooleanFields {
    |f: BooleanFields, a: (Seq<char>, Seq<char>)| boolean_attribute(f, a)
}

/// What reading an event does to the fields: a `<Boolean>` start tag applies its attributes in order.
pub open spec fn boolean_step(fields: BooleanFields, event: EventView) -> BooleanFields {
    match event {
        EventView::Start(name, attributes) if name == "Boolean"@ => attributes.fold_left(fields, boolean_attributes()),
        _ => fields,
    }
}

/// [`boolean_step`] as a function value.
pub open spec fn boolean_steps() -> spec_fn(BooleanFields, EventView) -> BooleanFields {
    |f: BooleanFields, e: EventView| boolean_step(f, e)
}

/// The fields and end position of the `Boolean` parameter whose content starts at `pos`.
pub open spec fn boolean_scan(evs: Seq<EventView>, pos: int) -> (BooleanFields, int) {
    element_fold(evs, pos, 1, (None, None, None), boolean_steps())
}

/// Whether the option `id` of the step `step_id` is one that is shown only by its name, when set.
/// The step table has no Revert Transaction, Set Error Logging or Refresh Window kinds, so none
/// of their options is among these.
pub open spec fn boolean_hidden(step_id: u32, id: Option<u32>) -> bool {
    let step = script_step_of(decimal(step_id as nat));
    let param = match id {
        Some(i) => i,
        None => 0,
    };
    (step == ScriptStep::CommitRecordRequests && (param == SKIP_DATA_ENTRY_VALIDATION || param
        == OVERRIDE_ESS_LOCKING_CONFLICTS)) || (step == ScriptStep::GoToField && param == SELECT_PERFORM)
}

/// `ON` or `OFF`.
pub open spec fn on_off_text(value: bool) -> Seq<char> {
    if value {
        "ON"@
    } else {
        "OFF"@
    }
}

/// How a `Boolean` parameter is shown: hidden options by their name when set; others as
/// `name: ON|OFF`, or `ON|OFF` without a name; nothing without a value.
pub open spec fn boolean_display(step_id: u32, fields: BooleanFields) -> Option<Seq<char>> {
    let (id, name, value) = fields;
    if boolean_hidden(step_id, id) {
        if value == Some(true) {
            name
        } else {
            None
        }
    } else {
        match (name, value) {
            (Some(n), Some(v)) => Some(n + ": "@ + on_off_text(v)),
            (None, Some(v)) => Some(on_off_text(v)),
            (_, None) => None,
        }
    }
}

impl Boolean {
    /// The id, name and value, as mathematical values.
    pub open spec fn fields(&self) -> BooleanFields {
        (self.id, self.name.deep_view(), self.value)
    }

    fn read_attributes(&mut self, attributes: &Vec<(String, String)>)
        ensures
            final(self).step_id == old(self).step_id,
            final(self).fields() == attributes.deep_view().fold_left(old(self).fields(), boolean_attributes()),
    {
        let ghost attrs = attributes.deep_view();
        let ghost start = self.fields();
        let mut i: usize = 0;
        assert(attrs.take(0) =~= Seq::<(Seq<char>, Seq<char>)>::empty());
        while i < attributes.len()
            invariant
                attrs == attributes.deep_view(),
                i <= attributes.len(),
                self.step_id == old(self).step_id,
                self.fields() == attrs.take(i as int).fold_left(start, boolean_attributes()),
            decreases attributes.len() - i,
        {
            assert(attrs.take(i + 1).drop_last() =~= attrs.take(i as int));
            let key = attributes[i].0.as_str();
            let value = attributes[i].1.as_str();
            if str_eq(key, "id") {
                if let Some(n) = parse_u32(value) {
                    self.id = Some(n);
                }
            } else if str_eq(key, "type") {
                self.name = Some(string_of(value));
            } else if str_eq(key, "value") {
                if str_eq(value, "True") {
                    self.value = Some(true);
                } else if str_eq(value, "False") {
                    self.value = Some(false);
                }
            }
            i = i + 1;
        }
        assert(attrs.take(i as int) =~= attrs);
    }

    /// Reads a `Boolean` parameter whose start tag was the last event read.
    pub fn from_xml(reader: &mut XmlReader, _e: &XmlEvent, step_id: u32) -> (res: Result<Boolean, String>)
        ensures
            final(reader).events == old(reader).events,
            res matches Ok(item) && item.step_id == step_id
                && (item.fields(), final(reader).pos as int) == boolean_scan(old(reader).evs(), old(reader).pos as int),
    {
        let ghost evs = reader.evs();
        let ghost start = reader.pos as int;
        let mut depth: u128 = 1;
        let mut item = Boolean { step_id, id: None, name: None, value: None };
        loop
            invariant_except_break
                1 <= depth <= reader.pos + 1,
                element_fold(evs, reader.pos as int, depth as int, item.fields(), boolean_steps())
                    == boolean_scan(evs, start),
            invariant
                reader.events == old(reader).events,
                evs == reader.evs(),
                item.step_id == step_id,
            ensures
                (item.fields(), reader.pos as int) == boolean_scan(evs, start),
            decreases evs.len() - reader.pos,
        {
            match reader.read_event() {
                None => break,
                Some(XmlEvent::Start { name, attributes }) => {
                    if str_eq(name.as_str(), "Boolean") {
                        item.read_attributes(attributes);
                    }
                    depth = depth + 1;
                },
                Some(XmlEvent::End { .. }) => {
                    depth = depth - 1;
                    if depth == 0 {
                        break;
                    }
                },
                Some(_) => {},
            }
        }
        Ok(item)
    }

    /// Whether this option is shown only by its name, when set.
    pub fn should_hide_bool(&self) -> (res: bool)
        ensures
            res == boolean_hidden(self.step_id, self.id),
    {
        let step = id_to_script_step(decimal_string(self.step_id as u64).as_str());
        let param = match self.id {
            Some(i) => i,
            None => 0,
        };
        (step == ScriptStep::CommitRecordRequests && (param == SKIP_DATA_ENTRY_VALIDATION || param
            == OVERRIDE_ESS_LOCKING_CONFLICTS)) || (step == ScriptStep::GoToField && param == SELECT_PERFORM)
    }

    /// `ON` for `true`, `OFF` for `false`.
    pub fn on_off(value: bool) -> (res: &'static str)
        ensures
            res@ == on_off_text(value),
    {
        if value {
            "ON"
        } else {
            "OFF"
        }
    }

    /// The parameter as it is shown in a script line.
    pub fn display(self) -> (res: Option<String>)
        ensures
            res.deep_view() == boolean_display(self.step_id, self.fields()),
    {
        if self.should_hide_bool() {
            return if self.value == Some(true) {
                self.name
            } else {
                None
            };
        }
        match (self.name, self.value) {
            (Some(name), Some(v)) => Some(concat3(name.as_str(), ": ", Self::on_off(v))),
            (None, Some(v)) => Some(string_of(Self::on_off(v))),
            (_, None) => None,
        }
    }
}

} // verus!
