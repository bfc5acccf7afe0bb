//! The account steps: Add Account, Change Password, Delete Account, Enable Account,
//! Re-Login and Reset Account Password. Passwords can be shown obfuscated.
use vstd::prelude::*;

use crate::script_steps::parameters::calculation::{calculation_display, calculation_scan, calculation_steps};
use crate::script_steps::step_scan::{bracketed, calc_scan, is_parameter, push_labelled, push_text, read_calculation_display, read_step_name, step_name, with_label, write_bracketed};
use crate::text::{concat, concat3, str_eq, string_of};
use crate::xml::{lemma_element_fold_bounds, attribute_is, first_attribute, get_attribute, parse_events, parse_unescaped_attribute, unescaped_attribute, xml_events, Attributes, EventView, XmlEvent, XmlReader};

verus! {

/// The text that stands for a password that is not shown.
pub const OBFUSCATED: &'static str = "••••••••";

/// `On` or `Off`.
pub open spec fn on_off_word(value: bool) -> Seq<char> {
    if value {
        "On"@
    } else {
        "Off"@
    }
}

/// `On` for `true`, `Off` for `false`.
pub fn on_off(value: bool) -> (res: &'static str)
    ensures
        res@ == on_off_word(value),
{
    if value {
        "On"
    } else {
        "Off"
    }
}

/// A password calculation as it is shown: the obfuscated placeholder where `obfuscate` is set.
pub open spec fn shown_secret(calc: Option<Seq<char>>, obfuscate: bool) -> Option<Seq<char>> {
    match calc {
        None => None,
        Some(c) => if obfuscate {
            Some(OBFUSCATED@)
        } else {
            Some(c)
        },
    }
}

/// The obfuscated placeholder where `obfuscate` is set, or the calculation itself; `None`
/// without a calculation either way.
pub fn calc_or_obfuscated(calc: Option<String>, obfuscate: bool) -> (res: Option<String>)
    ensures
        res.deep_view() == shown_secret(calc.deep_view(), obfuscate),
{
    match calc {
        None => None,
        Some(c) => if obfuscate {
            Some(string_of(OBFUSCATED))
        } else {
            Some(c)
        },
    }
}

// Add Account

/// Step name, authentication, account name, password, privilege set, and whether the password expires.
pub type AddAccountFields = (Seq<char>, Option<Seq<char>>, Option<Seq<char>>, Option<Seq<char>>, Option<Seq<char>>, bool);

/// The calculations that Add Account reads: the account name and the password.
pub open spec fn add_account_nested() -> spec_fn(Seq<char>, Attributes) -> bool {
    |name: Seq<char>, a: Attributes| is_parameter(name, a, "Name"@) || is_parameter(name, a, "Password"@)
}

/// What a calculation of Add Account sets.
pub open spec fn add_account_calc(obfuscate: bool) -> spec_fn(AddAccountFields, Seq<char>, Attributes, Option<Seq<char>>) -> Option<AddAccountFields> {
    |f: AddAccountFields, name: Seq<char>, a: Attributes, calc: Option<Seq<char>>| {
        let (step, via, account, password, privileges, expire) = f;
        if is_parameter(name, a, "Name"@) {
            Some((step, via, calculation_display(calc), password, privileges, expire))
        } else {
            Some((step, via, account, shown_secret(calculation_display(calc), obfuscate), privileges, expire))
        }
    }
}

/// What another start tag of Add Account sets: `<Step>` the step name, the first `<List>` the
/// authentication, `<PrivilegeSetReference>` the privilege set, and a set `Expire password` option.
pub open spec fn add_account_start() -> spec_fn(AddAccountFields, Seq<char>, Attributes) -> Option<AddAccountFields> {
    |f: AddAccountFields, name: Seq<char>, a: Attributes| {
        let (step, via, account, password, privileges, expire) = f;
        if name == "Step"@ {
            Some((step_name(a), via, account, password, privileges, expire))
        } else if name == "List"@ {
            Some((step, if via is None { first_attribute(a, "name"@) } else { via }, account, password, privileges, expire))
        } else if name == "PrivilegeSetReference"@ {
            Some((step, via, account, password, unescaped_attribute(a, "name"@), expire))
        } else if name == "Boolean"@ && first_attribute(a, "type"@) == Some("Expire password"@)
            && first_attribute(a, "value"@) == Some("True"@) {
            Some((step, via, account, password, privileges, true))
        } else {
            Some(f)
        }
    }
}

/// The line of an Add Account step with the given fields: `None` without a step name.
pub open spec fn add_account_render(f: AddAccountFields) -> Option<Seq<char>> {
    let (step, via, account, password, privileges, expire) = f;
    if step.len() == 0 {
        None
    } else {
        let parts = with_label(with_label(with_label(with_label(Seq::empty(), "Authenticate via: "@, via), "Account Name: "@, account),
            "Password: "@, password), "Privilege Set: "@, privileges);
        Some(bracketed(step, if expire { parts.push("Expire password"@) } else { parts }))
    }
}

/// The line of an Add Account step: `None` without a step name.
pub open spec fn add_account_outcome(evs: Seq<EventView>, obfuscate: bool) -> Option<Seq<char>> {
    match calc_scan(evs, 0, (Seq::empty(), None, None, None, None, false), add_account_nested(), add_account_calc(obfuscate), add_account_start()) {
        Some(f) => add_account_render(f),
        None => None,
    }
}

/// The fields with the password replaced by the placeholder, where there is one.
pub open spec fn hide_password(f: AddAccountFields) -> AddAccountFields {
    (f.0, f.1, f.2, shown_secret(f.3, true), f.4, f.5)
}

proof fn lemma_add_account_scan_hides_password(evs: Seq<EventView>, pos: int, plain: AddAccountFields)
    ensures
        calc_scan(evs, pos, hide_password(plain), add_account_nested(), add_account_calc(true), add_account_start())
            == match calc_scan(evs, pos, plain, add_account_nested(), add_account_calc(false), add_account_start()) {
                Some(f) => Some(hide_password(f)),
                None => None,
            },
    decreases evs.len() - pos,
{
    if 0 <= pos < evs.len() {
        match evs[pos] {
            EventView::Start(name, attributes) => if (add_account_nested())(name, attributes) {
                let (calculation, end) = calculation_scan(evs, pos + 1);
                lemma_element_fold_bounds(evs, pos + 1, 1, (None, false), calculation_steps());
                let next = (add_account_calc(false))(plain, name, attributes, calculation).unwrap();
                assert((add_account_calc(true))(hide_password(plain), name, attributes, calculation) == Some(hide_password(next)));
                lemma_add_account_scan_hides_password(evs, end, next);
            } else {
                let next = (add_account_start())(plain, name, attributes).unwrap();
                assert((add_account_start())(hide_password(plain), name, attributes) == Some(hide_password(next)));
                lemma_add_account_scan_hides_password(evs, pos + 1, next);
            },
            _ => lemma_add_account_scan_hides_password(evs, pos + 1, plain),
        }
    }
}

/// Obfuscation hides the password and nothing else: the obfuscated line of an Add Account step
/// is the line of the same reading with its password replaced by the placeholder.
pub proof fn law_add_account_obfuscation_hides_only_the_password(evs: Seq<EventView>)
    ensures
        add_account_outcome(evs, true) == match calc_scan(evs, 0, (Seq::empty(), None, None, None, None, false),
            add_account_nested(), add_account_calc(false), add_account_start()) {
            Some(f) => add_account_render(hide_password(f)),
            None => None,
        },
{
    lemma_add_account_scan_hides_password(evs, 0, (Seq::empty(), None, None, None, None, false));
    assert(hide_password((Seq::empty(), None, None, None, None, false)) == (Seq::<char>::empty(), None::<Seq<char>>, None::<Seq<char>>, None::<Seq<char>>, None::<Seq<char>>, false));
}

/// What an Add Account step's events say, with the password in clear: the fields read.
pub open spec fn add_account_reading(evs: Seq<EventView>) -> Option<AddAccountFields> {
    calc_scan(evs, 0, (Seq::empty(), None, None, None, None, false), add_account_nested(), add_account_calc(false), add_account_start())
}

/// An obfuscated Add Account line does not depend on the password: two steps whose readings
/// agree on everything but the password's value (each having a password where the other does)
/// give the same obfuscated line, and where there is a password that line shows the
/// placeholder in its place.
pub proof fn law_add_account_obfuscated_line_ignores_password(evs1: Seq<EventView>, evs2: Seq<EventView>)
    requires
        add_account_reading(evs1) matches Some(f1) && add_account_reading(evs2) matches Some(f2)
            && f1.0 == f2.0 && f1.1 == f2.1 && f1.2 == f2.2 && f1.4 == f2.4 && f1.5 == f2.5
            && (f1.3 is Some <==> f2.3 is Some),
    ensures
        add_account_outcome(evs1, true) == add_account_outcome(evs2, true),
        match add_account_reading(evs1) {
            Some(f1) => f1.3 is Some ==> add_account_outcome(evs1, true)
                == add_account_render((f1.0, f1.1, f1.2, Some(OBFUSCATED@), f1.4, f1.5)),
            None => true,
        },
{
    law_add_account_obfuscation_hides_only_the_password(evs1);
    law_add_account_obfuscation_hides_only_the_password(evs2);
    let f1 = add_account_reading(evs1).unwrap();
    let f2 = add_account_reading(evs2).unwrap();
    assert(hide_password(f1) == hide_password(f2));
}

/// Whether the events of two Add Account steps, read from `pos` on as the step reader reads
/// them, differ only in the password: the password calculations end at the same place and have a
/// (non-empty) formula in both, and all else is the same, event for event.
pub open spec fn differ_only_in_password(evs1: Seq<EventView>, evs2: Seq<EventView>, pos: int) -> bool
    decreases evs1.len() - pos,
{
    if pos < 0 || pos >= evs1.len() {
        evs1.len() == evs2.len()
    } else if pos >= evs2.len() || evs1[pos] != evs2[pos] {
        false
    } else {
        match evs1[pos] {
            EventView::Start(name, attributes) => if (add_account_nested())(name, attributes) {
                let (c1, e1) = calculation_scan(evs1, pos + 1);
                let (c2, e2) = calculation_scan(evs2, pos + 1);
                proof {
                    lemma_element_fold_bounds(evs1, pos + 1, 1, (None, false), calculation_steps());
                }
                &&& e1 == e2
                &&& if is_parameter(name, attributes, "Name"@) {
                    c1 == c2
                } else {
                    calculation_display(c1) is Some && calculation_display(c2) is Some
                }
                &&& differ_only_in_password(evs1, evs2, e1)
            } else {
                differ_only_in_password(evs1, evs2, pos + 1)
            },
            _ => differ_only_in_password(evs1, evs2, pos + 1),
        }
    }
}

proof fn lemma_obfuscated_scans_agree(evs1: Seq<EventView>, evs2: Seq<EventView>, pos: int, f: AddAccountFields)
    requires
        0 <= pos,
        differ_only_in_password(evs1, evs2, pos),
    ensures
        calc_scan(evs1, pos, f, add_account_nested(), add_account_calc(true), add_account_start())
            == calc_scan(evs2, pos, f, add_account_nested(), add_account_calc(true), add_account_start()),
    decreases evs1.len() - pos,
{
    if pos < evs1.len() {
        match evs1[pos] {
            EventView::Start(name, attributes) => if (add_account_nested())(name, attributes) {
                let (c1, e1) = calculation_scan(evs1, pos + 1);
                lemma_element_fold_bounds(evs1, pos + 1, 1, (None, false), calculation_steps());
                assert((add_account_calc(true))(f, name, attributes, c1) == (add_account_calc(true))(f, name, attributes, calculation_scan(evs2, pos + 1).0));
                let next = (add_account_calc(true))(f, name, attributes, c1).unwrap();
                lemma_obfuscated_scans_agree(evs1, evs2, e1, next);
            } else {
                let next = (add_account_start())(f, name, attributes).unwrap();
                lemma_obfuscated_scans_agree(evs1, evs2, pos + 1, next);
            },
            _ => lemma_obfuscated_scans_agree(evs1, evs2, pos + 1, f),
        }
    }
}

/// An obfuscated Add Account line does not depend on the password: two steps whose events
/// differ only in the (non-empty) password calculation give the same obfuscated line.
pub proof fn law_add_account_obfuscated_line_ignores_password_text(evs1: Seq<EventView>, evs2: Seq<EventView>)
    requires
        differ_only_in_password(evs1, evs2, 0),
    ensures
        add_account_outcome(evs1, true) == add_account_outcome(evs2, true),
{
    lemma_obfuscated_scans_agree(evs1, evs2, 0, (Seq::empty(), None, None, None, None, false));
}

/// The line of an Add Account step read from its events.
pub fn add_account_line(events: &Vec<XmlEvent>, obfuscate: bool) -> (res: Option<String>)
    ensures
        res.deep_view() == add_account_outcome(events.deep_view(), obfuscate),
{
    let ghost evs = events.deep_view();
    let mut reader = XmlReader::new(events);
    let mut step = String::new();
    let mut via: Option<String> = None;
    let mut account: Option<String> = None;
    let mut password: Option<String> = None;
    let mut privileges: Option<String> = None;
    let mut expire = false;
    loop
        invariant
            reader.events == events,
            evs == reader.evs(),
            reader.pos <= evs.len(),
            calc_scan(evs, reader.pos as int, (step@, via.deep_view(), account.deep_view(), password.deep_view(), privileges.deep_view(), expire),
                add_account_nested(), add_account_calc(obfuscate), add_account_start())
                == calc_scan(evs, 0, (Seq::empty(), None, None, None, None, false), add_account_nested(), add_account_calc(obfuscate), add_account_start()),
        ensures
            reader.pos >= evs.len(),
        decreases evs.len() - reader.pos,
    {
        match reader.read_event() {
            None => break,
            Some(event) => match event {
                XmlEvent::Start { name, attributes } => {
                    let is_name = str_eq(name.as_str(), "Parameter") && attribute_is(attributes, "type", "Name");
                    let is_password = str_eq(name.as_str(), "Parameter") && attribute_is(attributes, "type", "Password");
                    if is_name {
                        account = read_calculation_display(&mut reader, event);
                    } else if is_password {
                        password = calc_or_obfuscated(read_calculation_display(&mut reader, event), obfuscate);
                    } else if str_eq(name.as_str(), "Step") {
                        step = read_step_name(attributes);
                    } else if str_eq(name.as_str(), "List") {
                        if via.is_none() {
                            via = get_attribute(attributes, "name");
                        }
                    } else if str_eq(name.as_str(), "PrivilegeSetReference") {
                        privileges = parse_unescaped_attribute(attributes, "name");
                    } else if str_eq(name.as_str(), "Boolean") && attribute_is(attributes, "type", "Expire password")
                        && attribute_is(attributes, "value", "True") {
                        expire = true;
                    }
                },
                _ => {},
            },
        }
    }
    if step.unicode_len() == 0 {
        return None;
    }
    let mut parts: Vec<String> = Vec::new();
    assert(parts.deep_view() =~= Seq::<Seq<char>>::empty());
    push_labelled(&mut parts, "Authenticate via: ", via);
    push_labelled(&mut parts, "Account Name: ", account);
    push_labelled(&mut parts, "Password: ", password);
    push_labelled(&mut parts, "Privilege Set: ", privileges);
    if expire {
        push_text(&mut parts, "Expire password");
    }
    Some(write_bracketed(step.as_str(), &parts))
}

/// The line of the Add Account step whose XML is `step`; the password obfuscated where
/// `obfuscate` is set. `None` where the step has no name.
pub fn sanitize_add_account(step: &str, obfuscate: bool) -> (res: Option<String>)
    ensures
        res.deep_view() == add_account_outcome(xml_events(step@), obfuscate),
{
    let events = parse_events(step);
    add_account_line(&events, obfuscate)
}

// Change Password

/// Step name, old password, new password, and whether a dialog is shown.
pub type ChangePasswordFields = (Seq<char>, Option<Seq<char>>, Option<Seq<char>>, bool);

/// The calculations that Change Password reads: the old and the new password.
pub open spec fn change_password_nested() -> spec_fn(Seq<char>, Attributes) -> bool {
    |name: Seq<char>, a: Attributes| is_parameter(name, a, "Old"@) || is_parameter(name, a, "New"@)
}

/// What a calculation of Change Password sets.
pub open spec fn change_password_calc(obfuscate: bool) -> spec_fn(ChangePasswordFields, Seq<char>, Attributes, Option<Seq<char>>) -> Option<ChangePasswordFields> {
    |f: ChangePasswordFields, name: Seq<char>, a: Attributes, calc: Option<Seq<char>>| {
        let (step, old_password, new_password, dialog) = f;
        if is_parameter(name, a, "Old"@) {
            Some((step, shown_secret(calculation_display(calc), obfuscate), new_password, dialog))
        } else {
            Some((step, old_password, shown_secret(calculation_display(calc), obfuscate), dialog))
        }
    }
}

/// What another start tag of Change Password sets: `<Step>` the step name, the `With dialog`
/// option whether a dialog is shown.
pub open spec fn change_password_start() -> spec_fn(ChangePasswordFields, Seq<char>, Attributes) -> Option<ChangePasswordFields> {
    |f: ChangePasswordFields, name: Seq<char>, a: Attributes| {
        let (step, old_password, new_password, dialog) = f;
        if name == "Step"@ {
            Some((step_name(a), old_password, new_password, dialog))
        } else if name == "Boolean"@ && first_attribute(a, "type"@) == Some("With dialog"@) {
            Some((step, old_password, new_password, first_attribute(a, "value"@) == Some("True"@)))
        } else {
            Some(f)
        }
    }
}

/// The line of a Change Password step: `None` without a step name.
pub open spec fn change_password_outcome(evs: Seq<EventView>, obfuscate: bool) -> Option<Seq<char>> {
    match calc_scan(evs, 0, (Seq::empty(), None, None, true), change_password_nested(), change_password_calc(obfuscate), change_password_start()) {
        Some((step, old_password, new_password, dialog)) => if step.len() == 0 {
            None
        } else {
            let parts = with_label(with_label(Seq::empty(), "Old Password: "@, old_password), "Password: "@, new_password);
            Some(bracketed(step, parts.push("With dialog: "@ + on_off_word(dialog))))
        },
        None => None,
    }
}

/// The line of a Change Password step read from its events.
pub fn change_password_line(events: &Vec<XmlEvent>, obfuscate: bool) -> (res: Option<String>)
    ensures
        res.deep_view() == change_password_outcome(events.deep_view(), obfuscate),
{
    let ghost evs = events.deep_view();
    let mut reader = XmlReader::new(events);
    let mut step = String::new();
    let mut old_password: Option<String> = None;
    let mut new_password: Option<String> = None;
    let mut dialog = true;
    loop
        invariant
            reader.events == events,
            evs == reader.evs(),
            reader.pos <= evs.len(),
            calc_scan(evs, reader.pos as int, (step@, old_password.deep_view(), new_password.deep_view(), dialog),
                change_password_nested(), change_password_calc(obfuscate), change_password_start())
                == calc_scan(evs, 0, (Seq::empty(), None, None, true), change_password_nested(), change_password_calc(obfuscate), change_password_start()),
        ensures
            reader.pos >= evs.len(),
        decreases evs.len() - reader.pos,
    {
        match reader.read_event() {
            None => break,
            Some(event) => match event {
                XmlEvent::Start { name, attributes } => {
                    let is_parameter = str_eq(name.as_str(), "Parameter");
                    if is_parameter && attribute_is(attributes, "type", "Old") {
                        old_password = calc_or_obfuscated(read_calculation_display(&mut reader, event), obfuscate);
                    } else if is_parameter && attribute_is(attributes, "type", "New") {
                        new_password = calc_or_obfuscated(read_calculation_display(&mut reader, event), obfuscate);
                    } else if str_eq(name.as_str(), "Step") {
                        step = read_step_name(attributes);
                    } else if str_eq(name.as_str(), "Boolean") && attribute_is(attributes, "type", "With dialog") {
                        dialog = attribute_is(attributes, "value", "True");
                    }
                },
                _ => {},
            },
        }
    }
    if step.unicode_len() == 0 {
        return None;
    }
    let mut parts: Vec<String> = Vec::new();
    assert(parts.deep_view() =~= Seq::<Seq<char>>::empty());
    push_labelled(&mut parts, "Old Password: ", old_password);
    push_labelled(&mut parts, "Password: ", new_password);
    push_labelled(&mut parts, "With dialog: ", Some(string_of(on_off(dialog))));
    Some(write_bracketed(step.as_str(), &parts))
}

/// The line of the Change Password step whose XML is `step`; passwords obfuscated where
/// `obfuscate` is set. `None` where the step has no name.
pub fn sanitize_change_password(step: &str, obfuscate: bool) -> (res: Option<String>)
    ensures
        res.deep_view() == change_password_outcome(xml_events(step@), obfuscate),
{
    let events = parse_events(step);
    change_password_line(&events, obfuscate)
}

// Delete Account

/// Step name and account name.
pub type DeleteAccountFields = (Seq<char>, Option<Seq<char>>);

/// The calculation that Delete Account reads: the account name.
pub open spec fn calculation_nested() -> spec_fn(Seq<char>, Attributes) -> bool {
    |name: Seq<char>, a: Attributes| is_parameter(name, a, "Calculation"@)
}

/// What the calculation of Delete Account sets: the account name.
pub open spec fn delete_account_calc() -> spec_fn(DeleteAccountFields, Seq<char>, Attributes, Option<Seq<char>>) -> Option<DeleteAccountFields> {
    |f: DeleteAccountFields, name: Seq<char>, a: Attributes, calc: Option<Seq<char>>| Some((f.0, calculation_display(calc)))
}

/// What another start tag of Delete Account sets: `<Step>` the step name.
pub open spec fn delete_account_start() -> spec_fn(DeleteAccountFields, Seq<char>, Attributes) -> Option<DeleteAccountFields> {
    |f: DeleteAccountFields, name: Seq<char>, a: Attributes| if name == "Step"@ {
        Some((step_name(a), f.1))
    } else {
        Some(f)
    }
}

/// The line of a Delete Account step: `None` without a step name.
pub open spec fn delete_account_outcome(evs: Seq<EventView>) -> Option<Seq<char>> {
    match calc_scan(evs, 0, (Seq::empty(), None), calculation_nested(), delete_account_calc(), delete_account_start()) {
        Some((step, account)) => if step.len() == 0 {
            None
        } else {
            match account {
                Some(a) => Some(step + " [ Account Name: "@ + a + " ]"@),
                None => Some(step),
            }
        },
        None => None,
    }
}

/// The line of a Delete Account step read from its events.
pub fn delete_account_line(events: &Vec<XmlEvent>) -> (res: Option<String>)
    ensures
        res.deep_view() == delete_account_outcome(events.deep_view()),
{
    let ghost evs = events.deep_view();
    let mut reader = XmlReader::new(events);
    let mut step = String::new();
    let mut account: Option<String> = None;
    loop
        invariant
            reader.events == events,
            evs == reader.evs(),
            reader.pos <= evs.len(),
            calc_scan(evs, reader.pos as int, (step@, account.deep_view()), calculation_nested(), delete_account_calc(), delete_account_start())
                == calc_scan(evs, 0, (Seq::empty(), None), calculation_nested(), delete_account_calc(), delete_account_start()),
        ensures
            reader.pos >= evs.len(),
        decreases evs.len() - reader.pos,
    {
        match reader.read_event() {
            None => break,
            Some(event) => match event {
                XmlEvent::Start { name, attributes } => {
                    if str_eq(name.as_str(), "Parameter") && attribute_is(attributes, "type", "Calculation") {
                        account = read_calculation_display(&mut reader, event);
                    } else if str_eq(name.as_str(), "Step") {
                        step = read_step_name(attributes);
                    }
                },
                _ => {},
            },
        }
    }
    if step.unicode_len() == 0 {
        return None;
    }
    match account {
        Some(a) => {
            let mut out = concat3(step.as_str(), " [ Account Name: ", a.as_str());
            out.append(" ]");
            Some(out)
        },
        None => Some(step),
    }
}

/// The line of the Delete Account step whose XML is `step`; `None` where the step has no name.
pub fn sanitize_delete_account(step: &str) -> (res: Option<String>)
    ensures
        res.deep_view() == delete_account_outcome(xml_events(step@)),
{
    let events = parse_events(step);
    delete_account_line(&events)
}

// Enable Account

/// Step name, account name, and whether the account is activated.
pub type EnableAccountFields = (Seq<char>, Option<Seq<char>>, Option<bool>);

/// What the calculation of Enable Account sets: the account name.
pub open spec fn enable_account_calc() -> spec_fn(EnableAccountFields, Seq<char>, Attributes, Option<Seq<char>>) -> Option<EnableAccountFields> {
    |f: EnableAccountFields, name: Seq<char>, a: Attributes, calc: Option<Seq<char>>| Some((f.0, calculation_display(calc), f.2))
}

/// What another start tag of Enable Account sets: `<Step>` the step name, the `enable` option
/// whether the account is activated.
pub open spec fn enable_account_start() -> spec_fn(EnableAccountFields, Seq<char>, Attributes) -> Option<EnableAccountFields> {
    |f: EnableAccountFields, name: Seq<char>, a: Attributes| if name == "Step"@ {
        Some((step_name(a), f.1, f.2))
    } else if name == "Boolean"@ && first_attribute(a, "type"@) == Some("enable"@) {
        Some((f.0, f.1, Some(first_attribute(a, "value"@) == Some("True"@))))
    } else {
        Some(f)
    }
}

/// The line of an Enable Account step: `None` without a step name.
pub open spec fn enable_account_outcome(evs: Seq<EventView>) -> Option<Seq<char>> {
    match calc_scan(evs, 0, (Seq::empty(), None, None), calculation_nested(), enable_account_calc(), enable_account_start()) {
        Some((step, account, activate)) => if step.len() == 0 {
            None
        } else {
            let parts = with_label(Seq::empty(), "Account Name: "@, account);
            Some(bracketed(step, match activate {
                Some(true) => parts.push("Activate"@),
                Some(false) => parts.push("Deactivate"@),
                None => parts,
            }))
        },
        None => None,
    }
}

/// The line of an Enable Account step read from its events.
pub fn enable_account_line(events: &Vec<XmlEvent>) -> (res: Option<String>)
    ensures
        res.deep_view() == enable_account_outcome(events.deep_view()),
{
    let ghost evs = events.deep_view();
    let mut reader = XmlReader::new(events);
    let mut step = String::new();
    let mut account: Option<String> = None;
    let mut activate: Option<bool> = None;
    loop
        invariant
            reader.events == events,
            evs == reader.evs(),
            reader.pos <= evs.len(),
            calc_scan(evs, reader.pos as int, (step@, account.deep_view(), activate), calculation_nested(), enable_account_calc(), enable_account_start())
                == calc_scan(evs, 0, (Seq::empty(), None, None), calculation_nested(), enable_account_calc(), enable_account_start()),
        ensures
            reader.pos >= evs.len(),
        decreases evs.len() - reader.pos,
    {
        match reader.read_event() {
            None => break,
            Some(event) => match event {
                XmlEvent::Start { name, attributes } => {
                    if str_eq(name.as_str(), "Parameter") && attribute_is(attributes, "type", "Calculation") {
                        account = read_calculation_display(&mut reader, event);
                    } else if str_eq(name.as_str(), "Step") {
                        step = read_step_name(attributes);
                    } else if str_eq(name.as_str(), "Boolean") && attribute_is(attributes, "type", "enable") {
                        activate = Some(attribute_is(attributes, "value", "True"));
                    }
                },
                _ => {},
            },
        }
    }
    if step.unicode_len() == 0 {
        return None;
    }
    let mut parts: Vec<String> = Vec::new();
    assert(parts.deep_view() =~= Seq::<Seq<char>>::empty());
    push_labelled(&mut parts, "Account Name: ", account);
    match activate {
        Some(true) => push_text(&mut parts, "Activate"),
        Some(false) => push_text(&mut parts, "Deactivate"),
        None => {},
    }
    Some(write_bracketed(step.as_str(), &parts))
}

/// The line of the Enable Account step whose XML is `step`; `None` where the step has no name.
pub fn sanitize_enable_account(step: &str) -> (res: Option<String>)
    ensures
        res.deep_view() == enable_account_outcome(xml_events(step@)),
{
    let events = parse_events(step);
    enable_account_line(&events)
}

// Re-Login

/// Step name, account name, password, and whether a dialog is shown.
pub type ReLoginFields = (Seq<char>, Option<Seq<char>>, Option<Seq<char>>, bool);

/// The calculations that Re-Login and Reset Account Password read: the account name and the password.
pub open spec fn name_password_nested() -> spec_fn(Seq<char>, Attributes) -> bool {
    |name: Seq<char>, a: Attributes| is_parameter(name, a, "Name"@) || is_parameter(name, a, "Password"@)
}

/// What a calculation of Re-Login sets.
pub open spec fn re_login_calc(obfuscate: bool) -> spec_fn(ReLoginFields, Seq<char>, Attributes, Option<Seq<char>>) -> Option<ReLoginFields> {
    |f: ReLoginFields, name: Seq<char>, a: Attributes, calc: Option<Seq<char>>| {
        let (step, account, password, dialog) = f;
        if is_parameter(name, a, "Name"@) {
            Some((step, calculation_display(calc), password, dialog))
        } else {
            Some((step, account, shown_secret(calculation_display(calc), obfuscate), dialog))
        }
    }
}

/// What another start tag of Re-Login sets: `<Step>` the step name, the `With dialog` option
/// whether a dialog is shown.
pub open spec fn re_login_start() -> spec_fn(ReLoginFields, Seq<char>, Attributes) -> Option<ReLoginFields> {
    |f: ReLoginFields, name: Seq<char>, a: Attributes| {
        let (step, account, password, dialog) = f;
        if name == "Step"@ {
            Some((step_name(a), account, password, dialog))
        } else if name == "Boolean"@ && first_attribute(a, "type"@) == Some("With dialog"@) {
            Some((step, account, password, first_attribute(a, "value"@) == Some("True"@)))
        } else {
            Some(f)
        }
    }
}

/// The line of a Re-Login step: `None` without a step name.
pub open spec fn re_login_outcome(evs: Seq<EventView>, obfuscate: bool) -> Option<Seq<char>> {
    match calc_scan(evs, 0, (Seq::empty(), None, None, true), name_password_nested(), re_login_calc(obfuscate), re_login_start()) {
        Some((step, account, password, dialog)) => if step.len() == 0 {
            None
        } else {
            let parts = with_label(with_label(Seq::empty(), "Account Name: "@, account), "Password: "@, password);
            Some(bracketed(step, parts.push("With dialog: "@ + on_off_word(dialog))))
        },
        None => None,
    }
}

/// The line of a Re-Login step read from its events.
pub fn re_login_line(events: &Vec<XmlEvent>, obfuscate: bool) -> (res: Option<String>)
    ensures
        res.deep_view() == re_login_outcome(events.deep_view(), obfuscate),
{
    let ghost evs = events.deep_view();
    let mut reader = XmlReader::new(events);
    let mut step = String::new();
    let mut account: Option<String> = None;
    let mut password: Option<String> = None;
    let mut dialog = true;
    loop
        invariant
            reader.events == events,
            evs == reader.evs(),
            reader.pos <= evs.len(),
            calc_scan(evs, reader.pos as int, (step@, account.deep_view(), password.deep_view(), dialog),
                name_password_nested(), re_login_calc(obfuscate), re_login_start())
                == calc_scan(evs, 0, (Seq::empty(), None, None, true), name_password_nested(), re_login_calc(obfuscate), re_login_start()),
        ensures
            reader.pos >= evs.len(),
        decreases evs.len() - reader.pos,
    {
        match reader.read_event() {
            None => break,
            Some(event) => match event {
                XmlEvent::Start { name, attributes } => {
                    let is_parameter = str_eq(name.as_str(), "Parameter");
                    if is_parameter && attribute_is(attributes, "type", "Name") {
                        account = read_calculation_display(&mut reader, event);
                    } else if is_parameter && attribute_is(attributes, "type", "Password") {
                        password = calc_or_obfuscated(read_calculation_display(&mut reader, event), obfuscate);
                    } else if str_eq(name.as_str(), "Step") {
                        step = read_step_name(attributes);
                    } else if str_eq(name.as_str(), "Boolean") && attribute_is(attributes, "type", "With dialog") {
                        dialog = attribute_is(attributes, "value", "True");
                    }
                },
                _ => {},
            },
        }
    }
    if step.unicode_len() == 0 {
        return None;
    }
    let mut parts: Vec<String> = Vec::new();
    assert(parts.deep_view() =~= Seq::<Seq<char>>::empty());
    push_labelled(&mut parts, "Account Name: ", account);
    push_labelled(&mut parts, "Password: ", password);
    push_labelled(&mut parts, "With dialog: ", Some(string_of(on_off(dialog))));
    Some(write_bracketed(step.as_str(), &parts))
}

/// The line of the Re-Login step whose XML is `step`; the password obfuscated where `obfuscate`
/// is set. `None` where the step has no name.
pub fn sanitize_re_login(step: &str, obfuscate: bool) -> (res: Option<String>)
    ensures
        res.deep_view() == re_login_outcome(xml_events(step@), obfuscate),
{
    let events = parse_events(step);
    re_login_line(&events, obfuscate)
}

// Reset Account Password

/// Step name, account name, password, and whether the password expires.
pub type ResetPasswordFields = (Seq<char>, Option<Seq<char>>, Option<Seq<char>>, bool);

/// What a calculation of Reset Account Password sets.
pub open spec fn reset_password_calc(obfuscate: bool) -> spec_fn(ResetPasswordFields, Seq<char>, Attributes, Option<Seq<char>>) -> Option<ResetPasswordFields> {
    |f: ResetPasswordFields, name: Seq<char>, a: Attributes, calc: Option<Seq<char>>| {
        let (step, account, password, expire) = f;
        if is_parameter(name, a, "Name"@) {
            Some((step, calculation_display(calc), password, expire))
        } else {
            Some((step, account, shown_secret(calculation_display(calc), obfuscate), expire))
        }
    }
}

/// What another start tag of Reset Account Password sets: `<Step>` the step name, a set
/// `Password` option that the password expires.
pub open spec fn reset_password_start() -> spec_fn(ResetPasswordFields, Seq<char>, Attributes) -> Option<ResetPasswordFields> {
    |f: ResetPasswordFields, name: Seq<char>, a: Attributes| {
        let (step, account, password, expire) = f;
        if name == "Step"@ {
            Some((step_name(a), account, password, expire))
        } else if name == "Boolean"@ && first_attribute(a, "type"@) == Some("Password"@)
            && first_attribute(a, "value"@) == Some("True"@) {
            Some((step, account, password, true))
        } else {
            Some(f)
        }
    }
}

/// The line of a Reset Account Password step: `None` without a step name; `name []` where
/// nothing is set.
pub open spec fn reset_password_outcome(evs: Seq<EventView>, obfuscate: bool) -> Option<Seq<char>> {
    match calc_scan(evs, 0, (Seq::empty(), None, None, false), name_password_nested(), reset_password_calc(obfuscate), reset_password_start()) {
        Some((step, account, password, expire)) => if step.len() == 0 {
            None
        } else {
            let labelled = with_label(with_label(Seq::empty(), "Account Name: "@, account), "Password: "@, password);
            let parts = if expire { labelled.push("Expire password"@) } else { labelled };
            if parts.len() == 0 {
                Some(step + " []"@)
            } else {
                Some(bracketed(step, parts))
            }
        },
        None => None,
    }
}

/// The line of a Reset Account Password step read from its events.
pub fn reset_password_line(events: &Vec<XmlEvent>, obfuscate: bool) -> (res: Option<String>)
    ensures
        res.deep_view() == reset_password_outcome(events.deep_view(), obfuscate),
{
    let ghost evs = events.deep_view();
    let mut reader = XmlReader::new(events);
    let mut step = String::new();
    let mut account: Option<String> = None;
    let mut password: Option<String> = None;
    let mut expire = false;
    loop
        invariant
            reader.events == events,
            evs == reader.evs(),
            reader.pos <= evs.len(),
            calc_scan(evs, reader.pos as int, (step@, account.deep_view(), password.deep_view(), expire),
                name_password_nested(), reset_password_calc(obfuscate), reset_password_start())
                == calc_scan(evs, 0, (Seq::empty(), None, None, false), name_password_nested(), reset_password_calc(obfuscate), reset_password_start()),
        ensures
            reader.pos >= evs.len(),
        decreases evs.len() - reader.pos,
    {
        match reader.read_event() {
            None => break,
            Some(event) => match event {
                XmlEvent::Start { name, attributes } => {
                    let is_parameter = str_eq(name.as_str(), "Parameter");
                    if is_parameter && attribute_is(attributes, "type", "Name") {
                        account = read_calculation_display(&mut reader, event);
                    } else if is_parameter && attribute_is(attributes, "type", "Password") {
                        password = calc_or_obfuscated(read_calculation_display(&mut reader, event), obfuscate);
                    } else if str_eq(name.as_str(), "Step") {
                        step = read_step_name(attributes);
                    } else if str_eq(name.as_str(), "Boolean") && attribute_is(attributes, "type", "Password")
                        && attribute_is(attributes, "value", "True") {
                        expire = true;
                    }
                },
                _ => {},
            },
        }
    }
    if step.unicode_len() == 0 {
        return None;
    }
    let mut parts: Vec<String> = Vec::new();
    assert(parts.deep_view() =~= Seq::<Seq<char>>::empty());
    push_labelled(&mut parts, "Account Name: ", account);
    push_labelled(&mut parts, "Password: ", password);
    if expire {
        push_text(&mut parts, "Expire password");
    }
    if parts.len() == 0 {
        Some(concat(step.as_str(), " []"))
    } else {
        Some(write_bracketed(step.as_str(), &parts))
    }
}

/// The line of the Reset Account Password step whose XML is `step`; the password obfuscated
/// where `obfuscate` is set. `None` where the step has no name.
pub fn sanitize_reset_account_password(step: &str, obfuscate: bool) -> (res: Option<String>)
    ensures
        res.deep_view() == reset_password_outcome(xml_events(step@), obfuscate),
{
    let events = parse_events(step);
    reset_password_line(&events, obfuscate)
}

} // verus!
