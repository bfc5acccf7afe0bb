//! The Commit Records/Requests step: the dialog option, and the validation and force options
//! where they are set.
use vstd::prelude::*;

use crate::script_steps::parameters::boolean::{on_off_text, Boolean};
use crate::script_steps::step_scan::{calc_scan, keep, never};
use crate::text::{concat3, str_eq};
use crate::xml::{first_attribute, get_attribute, parse_events, xml_events, Attributes, EventView, XmlEvent, XmlReader};

verus! {

/// Step name; whether validation is skipped, and its label; whether a dialog shows, and its
/// label; whether the commit is forced, and its label.
pub type CommitFields = (Seq<char>, bool, Seq<char>, bool, Seq<char>, bool, Seq<char>);

/// What an option does: by its id (`128` the dialog, `256` skipping validation, `512` forcing)
/// it sets that option to whether its `value` is `True` and adds its `type` to the label.
pub open spec fn commit_option(f: CommitFields, id: Seq<char>, on: bool, label: Seq<char>) -> CommitFields {
    let (step, suppress, suppress_text, dialog, dialog_text, force, force_text) = f;
    if id == "128"@ {
        (step, suppress, suppress_text, on, dialog_text + label, force, force_text)
    } else if id == "256"@ {
        (step, on, suppress_text + label, dialog, dialog_text, force, force_text)
    } else if id == "512"@ {
        (step, suppress, suppress_text, dialog, dialog_text, on, force_text + label)
    } else {
        f
    }
}

/// A `<Step>` tag with a name sets the step name; a `<Boolean>` is an option (`None` where it
/// has no `value` or no `id`).
pub open spec fn commit_start() -> spec_fn(CommitFields, Seq<char>, Attributes) -> Option<CommitFields> {
    |f: CommitFields, name: Seq<char>, a: Attributes| if name == "Step"@ {
        match first_attribute(a, "name"@) {
            Some(n) => Some((n, f.1, f.2, f.3, f.4, f.5, f.6)),
            None => Some(f),
        }
    } else if name == "Boolean"@ {
        match (first_attribute(a, "value"@), first_attribute(a, "id"@)) {
            (Some(value), Some(id)) => Some(commit_option(f, id, value == "True"@, match first_attribute(a, "type"@) {
                Some(t) => t,
                None => Seq::empty(),
            })),
            _ => None,
        }
    } else {
        Some(f)
    }
}

/// The line of a Commit step: `name [ validation ; dialog: ON|OFF ; force ]`, with the
/// validation and force labels only where they are set; no line without a step name.
pub open spec fn commit_outcome(evs: Seq<EventView>) -> Option<Option<Seq<char>>> {
    match calc_scan(evs, 0, (Seq::empty(), false, Seq::empty(), false, Seq::empty(), false, Seq::empty()), never(), keep(), commit_start()) {
        None => None,
        Some((step, suppress, suppress_text, dialog, dialog_text, force, force_text)) => Some(if step.len() == 0 {
            None
        } else {
            let first = if suppress { suppress_text + " ; "@ } else { Seq::empty() };
            let last = if force { " ; "@ + force_text } else { Seq::empty() };
            Some(step + " [ "@ + (first + dialog_text + ": "@ + on_off_text(dialog) + last) + " ]"@)
        }),
    }
}

/// The line of a Commit step read from its events.
pub fn commit_line(events: &Vec<XmlEvent>) -> (res: Option<Option<String>>)
    ensures
        res.deep_view() == commit_outcome(events.deep_view()),
{
    let ghost evs = events.deep_view();
    let mut reader = XmlReader::new(events);
    let mut step = String::new();
    let mut suppress = false;
    let mut suppress_text = String::new();
    let mut dialog = false;
    let mut dialog_text = String::new();
    let mut force = false;
    let mut force_text = String::new();
    loop
        invariant
            reader.events == events,
            evs == reader.evs(),
            reader.pos <= evs.len(),
            calc_scan(evs, reader.pos as int, (step@, suppress, suppress_text@, dialog, dialog_text@, force, force_text@), never(), keep(), commit_start())
                == calc_scan(evs, 0, (Seq::empty(), false, Seq::empty(), false, Seq::empty(), false, Seq::empty()), never(), keep(), commit_start()),
        ensures
            reader.pos >= evs.len(),
        decreases evs.len() - reader.pos,
    {
        match reader.read_event() {
            None => break,
            Some(event) => match event {
                XmlEvent::Start { name, attributes } => {
                    if str_eq(name.as_str(), "Step") {
                        if let Some(n) = get_attribute(attributes, "name") {
                            step = n;
                        }
                    } else if str_eq(name.as_str(), "Boolean") {
                        let value = match get_attribute(attributes, "value") {
                            Some(v) => v,
                            None => {
                                return None;
                            },
                        };
                        let id = match get_attribute(attributes, "id") {
                            Some(i) => i,
                            None => {
                                return None;
                            },
                        };
                        let on = str_eq(value.as_str(), "True");
                        let label = match get_attribute(attributes, "type") {
                            Some(t) => t,
                            None => String::new(),
                        };
                        if str_eq(id.as_str(), "128") {
                            dialog = on;
                            dialog_text.append(label.as_str());
                        } else if str_eq(id.as_str(), "256") {
                            suppress = on;
                            suppress_text.append(label.as_str());
                        } else if str_eq(id.as_str(), "512") {
                            force = on;
                            force_text.append(label.as_str());
                        }
                    }
                },
                _ => {},
            },
        }
    }
    if step.unicode_len() == 0 {
        return Some(None);
    }
    let mut params = String::new();
    if suppress {
        params.append(suppress_text.as_str());
        params.append(" ; ");
    }
    params.append(dialog_text.as_str());
    params.append(": ");
    params.append(Boolean::on_off(dialog));
    if force {
        params.append(" ; ");
        params.append(force_text.as_str());
    }
    let mut out = concat3(step.as_str(), " [ ", params.as_str());
    out.append(" ]");
    Some(Some(out))
}

/// Whether the Commit step `step` can be shown: each option has a `value` and an `id`.
pub open spec fn commit_readable(step: Seq<char>) -> bool {
    commit_outcome(xml_events(step)) is Some
}

/// The line of the Commit step whose XML is `step`.
pub fn sanitize(step: &str) -> (res: Option<String>)
    requires
        commit_readable(step@),
    ensures
        Some(res.deep_view()) == commit_outcome(xml_events(step@)),
{
    let events = parse_events(step);
    match commit_line(&events) {
        Some(line) => line,
        None => None,
    }
}

/// The line of the Commit step whose XML is `step`, as [`sanitize`] gives it; `None` where an
/// option has no `value` or no `id`.
pub fn sanitize_checked(step: &str) -> (res: Option<Option<String>>)
    ensures
        res.deep_view() == commit_outcome(xml_events(step@)),
{
    let events = parse_events(step);
    match commit_line(&events) {
        Some(_) => Some(sanitize(step)),
        None => None,
    }
}

} // verus!
