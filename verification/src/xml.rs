//! XML events as plain values, and the quick_xml reader that produces them.
use quick_xml::events::Event::{CData, Comment, End, Eof, Start, Text};
use quick_xml::Reader;
use vstd::prelude::*;

use crate::text::str_eq;

verus! {

/// One event of the XML stream, held as plain values.
/// Names and texts are the raw (still escaped) source text.
#[derive(Debug)]
pub enum XmlEvent {
    /// An opening tag `<name key="value" ...>` with its well-formed attributes in source order.
    Start { name: String, attributes: Vec<(String, String)> },
    /// A closing tag `</name>`.
    End { name: String },
    /// Character data between markup.
    Text { content: String },
    /// The content of a `<![CDATA[...]]>` section.
    CData { content: String },
    /// The text of a `<!-- ... -->` comment.
    Comment { content: String },
    /// Any other well-formed event (empty elements, entity references, declarations, ...).
    Other,
    /// A piece of input the reader rejected.
    Malformed,
    /// The end of the input.
    Eof,
}

/// The mathematical value of an [`XmlEvent`].
pub enum EventView {
    Start(Seq<char>, Seq<(Seq<char>, Seq<char>)>),
    End(Seq<char>),
    Text(Seq<char>),
    CData(Seq<char>),
    Comment(Seq<char>),
    Other,
    Malformed,
    Eof,
}

impl View for XmlEvent {
    type V = EventView;

    open spec fn view(&self) -> EventView {
        match self {
            XmlEvent::Start { name, attributes } => EventView::Start(name@, attributes.deep_view()),
            XmlEvent::End { name } => EventView::End(name@),
            XmlEvent::Text { content } => EventView::Text(content@),
            XmlEvent::CData { content } => EventView::CData(content@),
            XmlEvent::Comment { content } => EventView::Comment(content@),
            XmlEvent::Other => EventView::Other,
            XmlEvent::Malformed => EventView::Malformed,
            XmlEvent::Eof => EventView::Eof,
        }
    }
}

impl DeepView for XmlEvent {
    type V = EventView;

    open spec fn deep_view(&self) -> EventView {
        self@
    }
}

#[verifier::external_type_specification]
#[verifier::external_body]
#[verifier::reject_recursive_types(R)]
pub struct ExQuickXmlReader<R>(Reader<R>);

/// The events that quick_xml's `Reader::from_str(text)` yields from `text`,
/// in order, before its first `Eof`.
pub uninterp spec fn xml_events(text: Seq<char>) -> Seq<EventView>;

/// The events that `reader` will still yield before its first `Eof`.
pub uninterp spec fn pending_events(reader: Reader<&[u8]>) -> Seq<EventView>;

/// Calls `quick_xml::Reader::from_str`. Claims that the new reader will yield
/// exactly the events that `text` tokenizes to.
#[verifier::external_body]
fn new_reader<'a>(text: &'a str) -> (reader: Reader<&'a [u8]>)
    ensures
        pending_events(reader) == xml_events(text@),
{
    Reader::from_str(text)
}

/// Calls `quick_xml::Reader::read_event` and converts the event to plain values:
/// names, texts and attributes (those the attribute iterator accepts) as `String`s.
/// Claims that the reader hands out its pending events one by one, then `Eof`.
#[verifier::external_body]
fn next_event(reader: &mut Reader<&[u8]>) -> (event: XmlEvent)
    ensures
        (event is Eof) == (pending_events(*old(reader)).len() == 0),
        event is Eof ==> pending_events(*final(reader)) == pending_events(*old(reader)),
        !(event is Eof) ==> event@ == pending_events(*old(reader))[0],
        !(event is Eof) ==> pending_events(*final(reader)) == pending_events(*old(reader)).drop_first(),
{
    let text = |b: &[u8]| String::from_utf8_lossy(b).into_owned();
    let Ok(event) = reader.read_event() else { return XmlEvent::Malformed };
    match event {
        Start(e) => XmlEvent::Start {
            name: text(e.name().0),
            attributes: e.attributes().flatten().map(|a| (text(a.key.0), text(&a.value))).collect(),
        },
        End(e) => XmlEvent::End { name: text(&e) },
        Text(e) => XmlEvent::Text { content: text(&e) },
        CData(e) => XmlEvent::CData { content: text(&e) },
        Comment(e) => XmlEvent::Comment { content: text(&e) },
        Eof => XmlEvent::Eof,
        _ => XmlEvent::Other,
    }
}

/// Tokenizes `text` into the list of its XML events (without the final `Eof`).
pub fn parse_events(text: &str) -> (events: Vec<XmlEvent>)
    ensures
        events.deep_view() == xml_events(text@),
{
    let mut reader = new_reader(text);
    let mut events: Vec<XmlEvent> = Vec::new();
    loop
        invariant
            events.deep_view() + pending_events(reader) == xml_events(text@),
        ensures
            events.deep_view() == xml_events(text@),
        decreases pending_events(reader).len(),
    {
        let ghost before = events.deep_view();
        let ghost pending = pending_events(reader);
        let event = next_event(&mut reader);
        if let XmlEvent::Eof = event {
            assert(events.deep_view() =~= xml_events(text@));
            break;
        }
        events.push(event);
        assert(events.deep_view() =~= before.push(pending[0]));
        assert(events.deep_view() + pending_events(reader) =~= before + pending);
    }
    events
}

/// What `quick_xml::escape::unescape` makes of `raw`; `None` where it reports an error.
pub uninterp spec fn xml_unescaped(raw: Seq<char>) -> Option<Seq<char>>;

/// Calls `quick_xml::escape::unescape`, which replaces the predefined entities and the
/// character references of `raw`. Claims that the result is the named function of `raw`,
/// and, as the source shows (nothing is replaced without an `&`), that text without `&`
/// comes back unchanged.
#[verifier::external_body]
pub fn unescape(raw: &str) -> (res: Option<String>)
    ensures
        res.deep_view() == xml_unescaped(raw@),
        !raw@.contains('&') ==> res.deep_view() == Some(raw@),
{
    quick_xml::escape::unescape(raw).ok().map(|s| s.into_owned())
}

/// The part of `name` from position `i` on that follows the first `:`, or the whole name
/// where there is none from `i` on.
pub open spec fn after_first_colon(name: Seq<char>, i: int) -> Seq<char>
    decreases name.len() - i,
{
    if i < 0 || i >= name.len() {
        name
    } else if name[i] == ':' {
        name.skip(i + 1)
    } else {
        after_first_colon(name, i + 1)
    }
}

/// The local part of a qualified name: what follows its first `:` (the namespace prefix and
/// the colon dropped), or the whole name without a prefix, as `quick_xml::name::QName::local_name`
/// gives it.
pub open spec fn local_part(name: Seq<char>) -> Seq<char> {
    after_first_colon(name, 0)
}

/// The local part of a qualified name, as [`local_part`] says.
pub fn local_name(name: &str) -> (res: String)
    ensures
        res@ == local_part(name@),
{
    let n = name.unicode_len();
    let mut i: usize = 0;
    while i < n
        invariant
            n == name@.len(),
            i <= n,
            after_first_colon(name@, 0) == after_first_colon(name@, i as int),
        decreases n - i,
    {
        if name.get_char(i) == ':' {
            let rest = name.substring_char(i + 1, n);
            assert(name@.subrange(i + 1, n as int) =~= name@.skip(i + 1));
            return String::from_str(rest);
        }
        i = i + 1;
    }
    String::from_str(name)
}

/// A name without a prefix is its own local part.
pub proof fn lemma_local_part_plain(name: Seq<char>)
    requires
        !name.contains(':'),
    ensures
        local_part(name) == name,
{
    assert forall|i: int| 0 <= i <= name.len() implies after_first_colon(name, i) == name by {
        lemma_after_colon_plain(name, i);
    }
}

proof fn lemma_after_colon_plain(name: Seq<char>, i: int)
    requires
        !name.contains(':'),
        0 <= i <= name.len(),
    ensures
        after_first_colon(name, i) == name,
    decreases name.len() - i,
{
    if i < name.len() {
        assert(name[i] != ':') by {
            if name[i] == ':' {
                assert(name.contains(':'));
            }
        }
        lemma_after_colon_plain(name, i + 1);
    }
}

/// The attributes of a start tag: names and raw values, in source order.
pub type Attributes = Seq<(Seq<char>, Seq<char>)>;

/// Whether the attribute `key` is `value`.
pub fn attribute_is(attributes: &Vec<(String, String)>, key: &str, value: &str) -> (res: bool)
    ensures
        res == (first_attribute(attributes.deep_view(), key@) == Some(value@)),
{
    match get_attribute(attributes, key) {
        Some(v) => str_eq(v.as_str(), value),
        None => false,
    }
}

/// The value of the first attribute named `key`.
pub open spec fn first_attribute(attributes: Seq<(Seq<char>, Seq<char>)>, key: Seq<char>) -> Option<Seq<char>>
    decreases attributes.len(),
{
    if attributes.len() == 0 {
        None
    } else if attributes[0].0 == key {
        Some(attributes[0].1)
    } else {
        first_attribute(attributes.drop_first(), key)
    }
}

/// The value of the last attribute named `key`.
pub open spec fn last_attribute(attributes: Seq<(Seq<char>, Seq<char>)>, key: Seq<char>) -> Option<Seq<char>>
    decreases attributes.len(),
{
    if attributes.len() == 0 {
        None
    } else if attributes.last().0 == key {
        Some(attributes.last().1)
    } else {
        last_attribute(attributes.drop_last(), key)
    }
}

/// The raw value of the attribute `key` of a start event (`None` for other events).
pub open spec fn event_attribute(event: EventView, key: Seq<char>) -> Option<Seq<char>> {
    match event {
        EventView::Start(_, attributes) => first_attribute(attributes, key),
        _ => None,
    }
}

/// The name of a start or end event (empty for other events).
pub open spec fn event_name(event: EventView) -> Seq<char> {
    match event {
        EventView::Start(name, _) => name,
        EventView::End(name) => name,
        _ => Seq::empty(),
    }
}

/// A copy of a list of attributes.
pub fn clone_attributes(attributes: &Vec<(String, String)>) -> (res: Vec<(String, String)>)
    ensures
        res.deep_view() == attributes.deep_view(),
{
    let mut res: Vec<(String, String)> = Vec::new();
    let mut i: usize = 0;
    while i < attributes.len()
        invariant
            i <= attributes.len(),
            res.deep_view() == attributes.deep_view().take(i as int),
        decreases attributes.len() - i,
    {
        let ghost before = res.deep_view();
        let pair = (attributes[i].0.clone(), attributes[i].1.clone());
        assert(pair.deep_view() == attributes.deep_view()[i as int]);
        res.push(pair);
        assert(res.deep_view() =~= before.push(pair.deep_view()));
        assert(res.deep_view() =~= attributes.deep_view().take(i + 1));
        i = i + 1;
    }
    assert(attributes.deep_view().take(i as int) =~= attributes.deep_view());
    res
}

/// A copy of an event.
pub fn clone_event(event: &XmlEvent) -> (res: XmlEvent)
    ensures
        res@ == event@,
{
    match event {
        XmlEvent::Start { name, attributes } => XmlEvent::Start { name: name.clone(), attributes: clone_attributes(attributes) },
        XmlEvent::End { name } => XmlEvent::End { name: name.clone() },
        XmlEvent::Text { content } => XmlEvent::Text { content: content.clone() },
        XmlEvent::CData { content } => XmlEvent::CData { content: content.clone() },
        XmlEvent::Comment { content } => XmlEvent::Comment { content: content.clone() },
        XmlEvent::Other => XmlEvent::Other,
        XmlEvent::Malformed => XmlEvent::Malformed,
        XmlEvent::Eof => XmlEvent::Eof,
    }
}

/// A copy of the events from `start` up to (not including) `end`.
pub fn copy_events(events: &Vec<XmlEvent>, start: usize, end: usize) -> (res: Vec<XmlEvent>)
    requires
        start <= end <= events.len(),
    ensures
        res.deep_view() == events.deep_view().subrange(start as int, end as int),
{
    let mut res: Vec<XmlEvent> = Vec::new();
    let mut i: usize = start;
    while i < end
        invariant
            start <= i <= end <= events.len(),
            res.deep_view() == events.deep_view().subrange(start as int, i as int),
        decreases end - i,
    {
        let ghost before = res.deep_view();
        let copy = clone_event(&events[i]);
        assert(copy.deep_view() == events.deep_view()[i as int]);
        res.push(copy);
        assert(res.deep_view() =~= before.push(copy.deep_view()));
        assert(res.deep_view() =~= events.deep_view().subrange(start as int, i + 1));
        i = i + 1;
    }
    res
}

/// The raw value of the first attribute named `key`.
pub fn get_attribute(attributes: &Vec<(String, String)>, key: &str) -> (res: Option<String>)
    ensures
        res.deep_view() == first_attribute(attributes.deep_view(), key@),
{
    let ghost all = attributes.deep_view();
    let mut i: usize = 0;
    assert(all.skip(0) =~= all);
    while i < attributes.len()
        invariant
            all == attributes.deep_view(),
            i <= attributes.len(),
            first_attribute(all, key@) == first_attribute(all.skip(i as int), key@),
        decreases attributes.len() - i,
    {
        assert(all.skip(i as int).drop_first() =~= all.skip(i + 1));
        if str_eq(attributes[i].0.as_str(), key) {
            return Some(attributes[i].1.clone());
        }
        i = i + 1;
    }
    assert(all.skip(i as int).len() == 0);
    None
}

/// The raw value of the last attribute named `key`.
pub fn get_last_attribute(attributes: &Vec<(String, String)>, key: &str) -> (res: Option<String>)
    ensures
        res.deep_view() == last_attribute(attributes.deep_view(), key@),
{
    let ghost all = attributes.deep_view();
    let mut i: usize = attributes.len();
    assert(all.take(i as int) =~= all);
    while i > 0
        invariant
            all == attributes.deep_view(),
            i <= attributes.len(),
            last_attribute(all, key@) == last_attribute(all.take(i as int), key@),
        decreases i,
    {
        assert(all.take(i as int).drop_last() =~= all.take(i - 1));
        if str_eq(attributes[i - 1].0.as_str(), key) {
            return Some(attributes[i - 1].1.clone());
        }
        i = i - 1;
    }
    None
}

/// The raw value of the attribute `key` of `event`, if it is a start event.
pub fn event_get_attribute(event: &XmlEvent, key: &str) -> (res: Option<String>)
    ensures
        res.deep_view() == event_attribute(event@, key@),
{
    match event {
        XmlEvent::Start { attributes, .. } => get_attribute(attributes, key),
        _ => None,
    }
}

/// What the attribute `key` holds after unescaping; `None` where it is absent or does not unescape.
pub open spec fn unescaped_attribute(attributes: Seq<(Seq<char>, Seq<char>)>, key: Seq<char>) -> Option<Seq<char>> {
    match first_attribute(attributes, key) {
        Some(raw) => xml_unescaped(raw),
        None => None,
    }
}

/// The unescaped value of the first attribute named `key`.
pub fn parse_unescaped_attribute(attributes: &Vec<(String, String)>, key: &str) -> (res: Option<String>)
    ensures
        res.deep_view() == unescaped_attribute(attributes.deep_view(), key@),
{
    match get_attribute(attributes, key) {
        Some(raw) => unescape(raw.as_str()),
        None => None,
    }
}

/// Reads the rest of an element from `pos` on, with `depth` elements open, folding `step` over
/// each event before the end tag that closes it. The result is the final state and the position
/// after that end tag (or the end of the list).
pub open spec fn element_fold<S>(
    evs: Seq<EventView>,
    pos: int,
    depth: int,
    state: S,
    step: spec_fn(S, EventView) -> S,
) -> (S, int)
    decreases evs.len() - pos,
{
    if pos >= evs.len() {
        (state, pos)
    } else {
        match evs[pos] {
            EventView::Start(_, _) => element_fold(evs, pos + 1, depth + 1, step(state, evs[pos]), step),
            EventView::End(_) => if depth <= 1 {
                (state, pos + 1)
            } else {
                element_fold(evs, pos + 1, depth - 1, step(state, evs[pos]), step)
            },
            _ => element_fold(evs, pos + 1, depth, step(state, evs[pos]), step),
        }
    }
}

/// An element fold ends between where it starts and the end of the list, and past its start
/// where there is an event to read.
pub proof fn lemma_element_fold_bounds<S>(
    evs: Seq<EventView>,
    pos: int,
    depth: int,
    state: S,
    step: spec_fn(S, EventView) -> S,
)
    requires
        0 <= pos <= evs.len(),
    ensures
        pos <= element_fold(evs, pos, depth, state, step).1 <= evs.len(),
        pos < evs.len() ==> pos < element_fold(evs, pos, depth, state, step).1,
    decreases evs.len() - pos,
{
    if pos < evs.len() {
        match evs[pos] {
            EventView::Start(_, _) => lemma_element_fold_bounds(evs, pos + 1, depth + 1, step(state, evs[pos]), step),
            EventView::End(_) => if depth > 1 {
                lemma_element_fold_bounds(evs, pos + 1, depth - 1, step(state, evs[pos]), step);
            },
            _ => lemma_element_fold_bounds(evs, pos + 1, depth, step(state, evs[pos]), step),
        }
    }
}

/// The step that keeps no state.
pub open spec fn no_steps() -> spec_fn((), EventView) -> () {
    |s: (), e: EventView| ()
}

/// The position after the end tag that closes the element open at `pos` with `depth` levels.
pub open spec fn element_end(evs: Seq<EventView>, pos: int, depth: int) -> int {
    element_fold(evs, pos, depth, (), no_steps()).1
}

/// Reading an element ends at its end tag whatever is collected on the way: every element fold
/// from `pos` with `depth` levels open stops where [`skip_rest_of_element`] stops.
pub proof fn law_element_fold_ends_at_element_end<S>(
    evs: Seq<EventView>,
    pos: int,
    depth: int,
    state: S,
    step: spec_fn(S, EventView) -> S,
)
    ensures
        element_fold(evs, pos, depth, state, step).1 == element_end(evs, pos, depth),
    decreases evs.len() - pos,
{
    if pos < evs.len() {
        match evs[pos] {
            EventView::Start(_, _) => law_element_fold_ends_at_element_end(evs, pos + 1, depth + 1, step(state, evs[pos]), step),
            EventView::End(_) => if depth > 1 {
                law_element_fold_ends_at_element_end(evs, pos + 1, depth - 1, step(state, evs[pos]), step);
            },
            _ => law_element_fold_ends_at_element_end(evs, pos + 1, depth, step(state, evs[pos]), step),
        }
    }
}

/// A position in a list of events, read one event at a time.
pub struct XmlReader<'a> {
    pub events: &'a Vec<XmlEvent>,
    pub pos: usize,
}

/// Reads past the end tag that closes the element whose start tag was the last event read.
pub fn skip_rest_of_element(reader: &mut XmlReader)
    ensures
        final(reader).events == old(reader).events,
        final(reader).pos == element_end(old(reader).evs(), old(reader).pos as int, 1),
{
    let ghost evs = reader.evs();
    let ghost start = reader.pos as int;
    let mut depth: u128 = 1;
    loop
        invariant_except_break
            1 <= depth <= reader.pos + 1,
            element_fold(evs, reader.pos as int, depth as int, (), no_steps()) == element_fold(evs, start, 1, (), no_steps()),
        invariant
            reader.events == old(reader).events,
            evs == reader.evs(),
        ensures
            reader.pos == element_end(evs, start, 1),
        decreases evs.len() - reader.pos,
    {
        match reader.read_event() {
            None => break,
            Some(XmlEvent::Start { .. }) => {
                depth = depth + 1;
            },
            Some(XmlEvent::End { .. }) => {
                depth = depth - 1;
                if depth == 0 {
                    break;
                }
            },
            Some(_) => {},
        }
    }
}

/// The name of a start or end event; empty for other events.
pub fn get_event_name(event: &XmlEvent) -> (res: String)
    ensures
        res@ == event_name(event@),
{
    match event {
        XmlEvent::Start { name, .. } => name.clone(),
        XmlEvent::End { name } => name.clone(),
        _ => String::new(),
    }
}

impl<'a> XmlReader<'a> {
    /// The events being read, as mathematical values.
    pub open spec fn evs(&self) -> Seq<EventView> {
        self.events.deep_view()
    }

    /// A reader at the start of `events`.
    pub fn new(events: &'a Vec<XmlEvent>) -> (reader: Self)
        ensures
            reader.events == events,
            reader.pos == 0,
    {
        XmlReader { events, pos: 0 }
    }

    /// The next event, or `None` at the end of the list.
    pub fn read_event(&mut self) -> (event: Option<&'a XmlEvent>)
        ensures
            final(self).events == old(self).events,
            old(self).pos < old(self).events@.len() ==> {
                &&& event is Some
                &&& event.unwrap()@ == old(self).evs()[old(self).pos as int]
                &&& final(self).pos == old(self).pos + 1
            },
            old(self).pos >= old(self).events@.len() ==> event is None && final(self).pos == old(self).pos,
    {
        if self.pos < self.events.len() {
            let event = &self.events[self.pos];
            self.pos = self.pos + 1;
            Some(event)
        } else {
            None
        }
    }
}

} // verus!
