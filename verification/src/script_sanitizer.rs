//! A script as text: one line per step, blocks indented by tabs.
use vstd::prelude::*;

use crate::config::Flags;
use crate::script_steps::constants::{id_to_script_step, script_step_of, ScriptStep};
use crate::script_steps::sanitize::{sanitize_events, step_outcome};
use crate::text::{decimal, decimal_string, parse_u32, parse_u32_spec, push_repeated, repeat_seq, str_eq};
use crate::xml::{copy_events, first_attribute, get_attribute, get_last_attribute, last_attribute, parse_events, xml_events, EventView, XmlEvent};

verus! {

/// A script's id, name and text.
#[derive(Debug)]
pub struct ScriptInfo {
    pub id: String,
    pub name: String,
    pub text: String,
}

/// The indentation of a step of kind `step` and of the steps after it, where the steps so far
/// leave `next`: If and Loop indent what follows, Else and Else If stand one level out, End If
/// and End Loop stand one level out and so does what follows; a disabled step changes nothing.
/// `None` where a level would leave the machine's range.
pub open spec fn indentation(next: int, step: ScriptStep, enabled: bool) -> Option<(int, int)> {
    if !enabled {
        Some((next, next))
    } else if step == ScriptStep::IfStart || step == ScriptStep::LoopStart {
        if next + 1 > usize::MAX { None } else { Some((next, next + 1)) }
    } else if step == ScriptStep::IfElse || step == ScriptStep::Else {
        if next < 1 { None } else { Some((next - 1, next)) }
    } else if step == ScriptStep::IfEnd || step == ScriptStep::LoopEnd {
        if next < 1 { None } else { Some((next - 1, next - 1)) }
    } else {
        Some((next, next))
    }
}

/// Blocks nest: an If or a Loop indents what follows it by one level; an Else inside stands at
/// the level of its If and keeps what follows indented; the End If or End Loop stands at the
/// level of its start and brings what follows back to it. Disabled steps leave the level alone.
pub proof fn law_blocks_return_to_their_level(level: int, step: ScriptStep)
    requires
        0 <= level < usize::MAX,
    ensures
        indentation(level, ScriptStep::IfStart, true) == Some((level, level + 1)),
        indentation(level, ScriptStep::LoopStart, true) == Some((level, level + 1)),
        indentation(level + 1, ScriptStep::Else, true) == Some((level, level + 1)),
        indentation(level + 1, ScriptStep::IfElse, true) == Some((level, level + 1)),
        indentation(level + 1, ScriptStep::IfEnd, true) == Some((level, level)),
        indentation(level + 1, ScriptStep::LoopEnd, true) == Some((level, level)),
        indentation(level, step, false) == Some((level, level)),
{
}

/// The indentation of a step of kind `step` and of the steps after it.
pub fn step_indentation(next: usize, step: ScriptStep, enabled: bool) -> (res: Option<(usize, usize)>)
    ensures
        match indentation(next as int, step, enabled) {
            Some((current, after)) => res == Some((current as usize, after as usize)),
            None => res is None,
        },
{
    if !enabled {
        Some((next, next))
    } else if step == ScriptStep::IfStart || step == ScriptStep::LoopStart {
        if next == usize::MAX { None } else { Some((next, next + 1)) }
    } else if step == ScriptStep::IfElse || step == ScriptStep::Else {
        if next < 1 { None } else { Some((next - 1, next)) }
    } else if step == ScriptStep::IfEnd || step == ScriptStep::LoopEnd {
        if next < 1 { None } else { Some((next - 1, next - 1)) }
    } else {
        Some((next, next))
    }
}

/// The lines of `s`, split at each carriage return, as `str::split('\r')` gives them.
pub open spec fn split_lines(s: Seq<char>) -> Seq<Seq<char>>
    decreases s.len(),
{
    if s.len() == 0 {
        seq![Seq::empty()]
    } else {
        let rest = split_lines(s.drop_last());
        if s.last() == '\r' {
            rest.push(Seq::empty())
        } else {
            rest.update(rest.len() - 1, rest.last().push(s.last()))
        }
    }
}

/// There is always at least one line.
pub proof fn lemma_split_lines_len(s: Seq<char>)
    ensures
        split_lines(s).len() >= 1,
    decreases s.len(),
{
    if s.len() > 0 {
        lemma_split_lines_len(s.drop_last());
    }
}

/// The indentation of line `i` of a step at `level`: continuation lines of a step are indented
/// four more tabs, those of a comment two spaces.
pub open spec fn line_indent(i: int, level: nat, is_comment: bool) -> Seq<char> {
    repeat_seq("\t"@, level + if i > 0 && !is_comment { 4nat } else { 0nat })
        + if is_comment && i > 0 { "  "@ } else { Seq::empty() }
}

/// The lines, each indented and ended by a line feed.
pub open spec fn lines_text(lines: Seq<Seq<char>>, level: nat, is_comment: bool) -> Seq<char>
    decreases lines.len(),
{
    if lines.len() == 0 {
        Seq::empty()
    } else {
        lines_text(lines.drop_last(), level, is_comment) + line_indent(lines.len() - 1, level, is_comment) + lines.last() + "\n"@
    }
}

/// Appends line `index` of a step at `level`.
fn push_line(out: &mut String, line: &str, index: usize, level: usize, is_comment: bool)
    requires
        level <= usize::MAX - 4,
    ensures
        final(out)@ == old(out)@ + line_indent(index as int, level as nat, is_comment) + line@ + "\n"@,
{
    let extra: usize = if index > 0 && !is_comment { 4 } else { 0 };
    push_repeated(out, "\t", level + extra);
    let ghost tabs = out@;
    if is_comment && index > 0 {
        out.append("  ");
    } else {
        proof {
            assert(out@ =~= tabs + Seq::<char>::empty());
        }
    }
    out.append(line);
    out.append("\n");
}

/// Appends the lines of `text`, indented for a step at `level`.
pub fn push_step_lines(out: &mut String, text: &str, level: usize, is_comment: bool)
    requires
        level <= usize::MAX - 4,
    ensures
        final(out)@ == old(out)@ + lines_text(split_lines(text@), level as nat, is_comment),
{
    let n = text.unicode_len();
    let mut start: usize = 0;
    let mut index: usize = 0;
    let mut k: usize = 0;
    proof {
        assert(text@.take(0) =~= Seq::<char>::empty());
        assert(split_lines(text@.take(0)).drop_last() =~= Seq::<Seq<char>>::empty());
    }
    while k < n
        invariant
            n == text@.len(),
            start <= k <= n,
            index <= k,
            level <= usize::MAX - 4,
            split_lines(text@.take(k as int)).len() == index + 1,
            split_lines(text@.take(k as int)).last() == text@.subrange(start as int, k as int),
            out@ == old(out)@ + lines_text(split_lines(text@.take(k as int)).drop_last(), level as nat, is_comment),
        decreases n - k,
    {
        let ghost before = split_lines(text@.take(k as int));
        assert(text@.take(k + 1).drop_last() =~= text@.take(k as int));
        let c = text.get_char(k);
        if c == '\r' {
            push_line(out, text.substring_char(start, k), index, level, is_comment);
            proof {
                assert(before.drop_last().push(before.last()) =~= before);
                assert(split_lines(text@.take(k + 1)).drop_last() =~= before);
                assert(text@.subrange((k + 1) as int, (k + 1) as int) =~= Seq::<char>::empty());
            }
            index = index + 1;
            start = k + 1;
        } else {
            proof {
                assert(text@.subrange(start as int, k + 1) =~= text@.subrange(start as int, k as int).push(c));
                assert(split_lines(text@.take(k + 1)).drop_last() =~= before.drop_last());
            }
        }
        k = k + 1;
    }
    assert(text@.take(n as int) =~= text@);
    let ghost lines = split_lines(text@);
    push_line(out, text.substring_char(start, n), index, level, is_comment);
    assert(lines.drop_last().push(lines.last()) =~= lines);
}

/// What has been read of a script: the depth, the script's id, name and text, whether the
/// reader is inside a step, the step's id and where it started, and the indentation of the
/// step and of the steps after it.
pub struct ScriptScan {
    pub depth: int,
    pub id: Seq<char>,
    pub name: Seq<char>,
    pub text: Seq<char>,
    pub in_step: bool,
    pub step_id: u32,
    pub step_start: int,
    pub current: int,
    pub next: int,
}

/// `value`, or `current` where it is missing.
pub open spec fn or_keep(value: Option<Seq<char>>, current: Seq<char>) -> Seq<char> {
    match value {
        Some(v) => v,
        None => current,
    }
}

/// Reads a script's events from `pos` on, up to its end or the first malformed piece. The
/// `<ScriptReference>` at depth 2 gives the script's id and name; each `<Step>` at depth 3 is
/// indented by its kind (read from its `id`) unless its `enable` is other than `True`; at its
/// end tag its line (read from its events by the step reader of [`sanitize_events`]) is added,
/// split into indented lines. The step readers of particular step kinds (New Window, the account
/// steps, ...) each stand on their own; they are not chosen by step kind here, since the
/// dispatcher that would choose among them is no part of this project. `None` where the
/// step's id is missing or not a number, an indentation leaves the machine's range, or a step's
/// comment does not unescape.
pub open spec fn script_scan(evs: Seq<EventView>, pos: int, st: ScriptScan) -> Option<ScriptScan>
    decreases evs.len() - pos,
{
    if pos < 0 || pos >= evs.len() {
        Some(st)
    } else {
        match evs[pos] {
            EventView::Malformed => Some(st),
            EventView::Start(name, attributes) => {
                let d = st.depth + 1;
                if d == 2 && name == "ScriptReference"@ {
                    script_scan(evs, pos + 1, ScriptScan {
                        depth: d,
                        id: or_keep(last_attribute(attributes, "id"@), st.id),
                        name: or_keep(last_attribute(attributes, "name"@), st.name),
                        ..st
                    })
                } else if d == 3 && name == "Step"@ {
                    match first_attribute(attributes, "id"@) {
                        None => None,
                        Some(raw) => match parse_u32_spec(raw) {
                            None => None,
                            Some(step_id) => {
                                let enabled = match first_attribute(attributes, "enable"@) {
                                    None => true,
                                    Some(v) => v == "True"@,
                                };
                                match indentation(st.next, script_step_of(decimal(step_id as nat)), enabled) {
                                    None => None,
                                    Some((current, next)) => script_scan(evs, pos + 1, ScriptScan {
                                        depth: d,
                                        in_step: true,
                                        step_id,
                                        step_start: pos,
                                        current,
                                        next,
                                        ..st
                                    }),
                                }
                            },
                        },
                    }
                } else {
                    script_scan(evs, pos + 1, ScriptScan { depth: d, ..st })
                }
            },
            EventView::End(name) => {
                let d = st.depth - 1;
                if d == 0 {
                    Some(ScriptScan { depth: d, ..st })
                } else if d == 2 && name == "Step"@ {
                    let is_comment = script_step_of(decimal(st.step_id as nat)) == ScriptStep::Comment;
                    if st.current > usize::MAX - 4 {
                        None
                    } else {
                        match step_outcome(st.step_id, evs.subrange(st.step_start, pos + 1)) {
                            None => None,
                            Some(line) => script_scan(evs, pos + 1, ScriptScan {
                                depth: d,
                                in_step: false,
                                text: st.text + lines_text(split_lines(line), st.current as nat, is_comment),
                                ..st
                            }),
                        }
                    }
                } else {
                    script_scan(evs, pos + 1, ScriptScan { depth: d, ..st })
                }
            },
            _ => script_scan(evs, pos + 1, st),
        }
    }
}


/// The number of line feeds in `s`.
pub open spec fn newline_count(s: Seq<char>) -> nat
    decreases s.len(),
{
    if s.len() == 0 {
        0
    } else {
        newline_count(s.drop_last()) + if s.last() == '\n' { 1nat } else { 0nat }
    }
}

proof fn lemma_newline_count_append(a: Seq<char>, b: Seq<char>)
    ensures
        newline_count(a + b) == newline_count(a) + newline_count(b),
    decreases b.len(),
{
    if b.len() > 0 {
        assert((a + b).drop_last() =~= a + b.drop_last());
        lemma_newline_count_append(a, b.drop_last());
    } else {
        assert(a + b =~= a);
    }
}

/// The text of `lines` has a line feed for each line at least, and ends with one where there is
/// a line.
proof fn lemma_lines_text_lines(lines: Seq<Seq<char>>, level: nat, is_comment: bool)
    ensures
        newline_count(lines_text(lines, level, is_comment)) >= lines.len(),
        lines.len() > 0 ==> lines_text(lines, level, is_comment).len() > 0
            && lines_text(lines, level, is_comment).last() == '\n',
    decreases lines.len(),
{
    if lines.len() > 0 {
        lemma_lines_text_lines(lines.drop_last(), level, is_comment);
        let front = lines_text(lines.drop_last(), level, is_comment) + line_indent(lines.len() - 1, level, is_comment) + lines.last();
        reveal_strlit("\n");
        lemma_newline_count_append(lines_text(lines.drop_last(), level, is_comment), line_indent(lines.len() - 1, level, is_comment));
        lemma_newline_count_append(lines_text(lines.drop_last(), level, is_comment) + line_indent(lines.len() - 1, level, is_comment), lines.last());
        lemma_newline_count_append(front, "\n"@);
        assert(newline_count("\n"@) == 1) by {
            reveal_strlit("\n");
            assert("\n"@ =~= seq!['\n']);
            assert("\n"@.drop_last() =~= Seq::<char>::empty());
            assert(newline_count(Seq::<char>::empty()) == 0);
        }
    }
}

/// Every step that can be shown adds its lines to the script's text: at the end tag of a step
/// whose line reads `line`, the text grows by a piece that ends with a line feed and holds a
/// line feed for each of the line's lines at least, so an empty line (an empty comment) still
/// makes an empty line of the script.
pub proof fn law_every_step_adds_its_lines(evs: Seq<EventView>, pos: int, st: ScriptScan, line: Seq<char>)
    requires
        0 <= pos < evs.len(),
        evs[pos] == EventView::End("Step"@),
        st.depth == 3,
        st.current <= usize::MAX - 4,
        step_outcome(st.step_id, evs.subrange(st.step_start, pos + 1)) == Some(line),
    ensures
        exists|piece: Seq<char>| #![trigger newline_count(piece)]
            piece.len() > 0 && piece.last() == '\n' && newline_count(piece) >= split_lines(line).len()
            && script_scan(evs, pos, st) == script_scan(evs, pos + 1, ScriptScan { depth: 2, in_step: false, text: st.text + piece, ..st }),
{
    let is_comment = script_step_of(decimal(st.step_id as nat)) == ScriptStep::Comment;
    let piece = lines_text(split_lines(line), st.current as nat, is_comment);
    lemma_split_lines_len(line);
    lemma_lines_text_lines(split_lines(line), st.current as nat, is_comment);
    assert(script_scan(evs, pos, st) == script_scan(evs, pos + 1, ScriptScan { depth: 2, in_step: false, text: st.text + piece, ..st }));
    assert(newline_count(piece) >= split_lines(line).len());
}

/// Nothing read yet.
pub open spec fn script_start() -> ScriptScan {
    ScriptScan {
        depth: 0,
        id: Seq::empty(),
        name: Seq::empty(),
        text: Seq::empty(),
        in_step: false,
        step_id: 0,
        step_start: 0,
        current: 0,
        next: 0,
    }
}

/// The script whose events are `evs`: its id, name and text; no script without an id; `None`
/// where it cannot be read.
pub open spec fn script_outcome(evs: Seq<EventView>) -> Option<Option<(Seq<char>, Seq<char>, Seq<char>)>> {
    match script_scan(evs, 0, script_start()) {
        None => None,
        Some(st) => Some(if st.id.len() == 0 {
            None
        } else {
            Some((st.id, st.name, st.text))
        }),
    }
}

/// The script read from its events: its id, name and text; `Some(None)` without an id; `None`
/// where it cannot be read.
pub fn parse_script_events(events: &Vec<XmlEvent>) -> (res: Option<Option<ScriptInfo>>)
    ensures
        match script_outcome(events.deep_view()) {
            None => res is None,
            Some(None) => res == Some(None::<ScriptInfo>),
            Some(Some((id, name, text))) => res matches Some(Some(info)) && info.id@ == id && info.name@ == name
                && info.text@ == text,
        },
{
    let ghost evs = events.deep_view();
    let mut depth: i128 = 0;
    let mut id = String::new();
    let mut name = String::new();
    let mut text = String::new();
    let mut in_step = false;
    let mut step_id: u32 = 0;
    let mut step_start: usize = 0;
    let mut current: usize = 0;
    let mut next: usize = 0;
    let mut i: usize = 0;
    while i < events.len()
        invariant_except_break
            script_scan(evs, i as int, ScriptScan {
                depth: depth as int,
                id: id@,
                name: name@,
                text: text@,
                in_step,
                step_id,
                step_start: step_start as int,
                current: current as int,
                next: next as int,
            }) == script_scan(evs, 0, script_start()),
        invariant
            evs == events.deep_view(),
            i <= events.len(),
            -(i as int) <= depth <= i,
            step_start <= i,
        ensures
            script_scan(evs, 0, script_start()) matches Some(st) && st.id == id@ && st.name == name@ && st.text == text@,
        decreases events.len() - i,
    {
        match &events[i] {
            XmlEvent::Malformed => break,
            XmlEvent::Start { name: tag, attributes } => {
                depth = depth + 1;
                if depth == 2 && str_eq(tag.as_str(), "ScriptReference") {
                    if let Some(v) = get_last_attribute(attributes, "id") {
                        id = v;
                    }
                    if let Some(v) = get_last_attribute(attributes, "name") {
                        name = v;
                    }
                } else if depth == 3 && str_eq(tag.as_str(), "Step") {
                    let raw = match get_attribute(attributes, "id") {
                        Some(r) => r,
                        None => {
                            return None;
                        },
                    };
                    let sid = match parse_u32(raw.as_str()) {
                        Some(n) => n,
                        None => {
                            return None;
                        },
                    };
                    let enabled = match get_attribute(attributes, "enable") {
                        None => true,
                        Some(v) => str_eq(v.as_str(), "True"),
                    };
                    let kind = id_to_script_step(decimal_string(sid as u64).as_str());
                    match step_indentation(next, kind, enabled) {
                        None => {
                            return None;
                        },
                        Some((c, n)) => {
                            in_step = true;
                            step_id = sid;
                            step_start = i;
                            current = c;
                            next = n;
                        },
                    }
                }
            },
            XmlEvent::End { name: tag } => {
                depth = depth - 1;
                if depth == 0 {
                    break;
                }
                if depth == 2 && str_eq(tag.as_str(), "Step") {
                    let is_comment = id_to_script_step(decimal_string(step_id as u64).as_str()) == ScriptStep::Comment;
                    if current > usize::MAX - 4 {
                        return None;
                    }
                    let step_events = copy_events(events, step_start, i + 1);
                    match sanitize_events(step_id, &step_events) {
                        None => {
                            return None;
                        },
                        Some(line) => {
                            push_step_lines(&mut text, line.as_str(), current, is_comment);
                        },
                    }
                    in_step = false;
                }
            },
            _ => {},
        }
        i = i + 1;
    }
    if id.unicode_len() == 0 {
        Some(None)
    } else {
        Some(Some(ScriptInfo { id, name, text }))
    }
}

/// Whether the script whose XML is `xml_content` can be read.
pub open spec fn script_readable(xml_content: Seq<char>) -> bool {
    script_outcome(xml_events(xml_content)) is Some
}

/// The script whose XML is `xml_content`: its id, name and text; `None` without an id.
pub fn parse_script_xml(xml_content: &str, _flags: &Flags) -> (res: Option<ScriptInfo>)
    requires
        script_readable(xml_content@),
    ensures
        match script_outcome(xml_events(xml_content@)) {
            Some(Some((id, name, text))) => res matches Some(info) && info.id@ == id && info.name@ == name
                && info.text@ == text,
            _ => res is None,
        },
{
    let events = parse_events(xml_content);
    match parse_script_events(&events) {
        Some(found) => found,
        None => None,
    }
}

/// The script whose XML is `xml_content`, as [`parse_script_xml`] reads it; `None` where it
/// cannot be read.
pub fn parse_script_xml_checked(xml_content: &str, flags: &Flags) -> (res: Option<Option<ScriptInfo>>)
    ensures
        match script_outcome(xml_events(xml_content@)) {
            None => res is None,
            Some(None) => res == Some(None::<ScriptInfo>),
            Some(Some((id, name, text))) => res matches Some(Some(info)) && info.id@ == id && info.name@ == name
                && info.text@ == text,
        },
{
    let events = parse_events(xml_content);
    match parse_script_events(&events) {
        Some(_) => Some(parse_script_xml(xml_content, flags)),
        None => None,
    }
}

} // verus!
