//! The New Window step: style, name, layout, bounds and the options that are off.
use vstd::prelude::*;

use crate::script_steps::step_scan::{bracketed, push_labelled, push_text, with_label, write_bracketed};
use crate::script_steps::parameters::layout_reference::{lemma_layout_scan_bounds, layout_display, layout_parameter_scan, LayoutReferenceContainer};
use crate::text::{concat, join, join_seq, str_eq};
use crate::xml::{local_name, local_part, event_attribute, first_attribute, get_attribute, parse_events, unescape, xml_events, xml_unescaped, Attributes, EventView, XmlEvent, XmlReader};

verus! {

/// The path of the `<Text>` element that holds the window's name.
pub const WINDOW_NAME_PATH: &'static str = "Step/ParameterValues/Parameter/WindowReference/Name/Calculation/Calculation/Text";

/// Which elements of a New Window step the reader is inside.
#[derive(Clone, Copy)]
pub struct Tracking {
    pub name_calc: bool,
    pub options: bool,
    pub close: bool,
    pub minimize: bool,
    pub maximize: bool,
    pub resize: bool,
    pub menu_bar: bool,
    pub toolbar: bool,
    pub dim_parent_window: bool,
    pub height: bool,
    pub width: bool,
    pub top: bool,
    pub left: bool,
}

/// The window options of a New Window step.
#[derive(Clone, Copy)]
pub struct WindowOptions {
    pub close: bool,
    pub minimize: bool,
    pub maximize: bool,
    pub resize: bool,
    pub menu_bar: bool,
    pub toolbar: bool,
    pub dim_parent_window: bool,
}

/// The texts read of a New Window step.
pub struct WindowTexts {
    pub style: Seq<char>,
    pub name: Seq<char>,
    pub layout: Seq<char>,
    pub height: Option<Seq<char>>,
    pub width: Option<Seq<char>>,
    pub top: Option<Seq<char>>,
    pub left: Option<Seq<char>>,
}

/// What has been read of a New Window step, and where the reader is.
pub struct NewWindowView {
    pub step: Seq<char>,
    pub texts: WindowTexts,
    pub options: WindowOptions,
    pub inside: Tracking,
    pub path: Seq<Seq<char>>,
}

/// Inside nothing.
pub open spec fn outside() -> Tracking {
    Tracking {
        name_calc: false,
        options: false,
        close: false,
        minimize: false,
        maximize: false,
        resize: false,
        menu_bar: false,
        toolbar: false,
        dim_parent_window: false,
        height: false,
        width: false,
        top: false,
        left: false,
    }
}

/// Nothing read yet: all options off.
pub open spec fn new_window_start() -> NewWindowView {
    NewWindowView {
        step: Seq::empty(),
        texts: WindowTexts {
            style: Seq::empty(),
            name: Seq::empty(),
            layout: Seq::empty(),
            height: None,
            width: None,
            top: None,
            left: None,
        },
        options: WindowOptions {
            close: false,
            minimize: false,
            maximize: false,
            resize: false,
            menu_bar: false,
            toolbar: false,
            dim_parent_window: false,
        },
        inside: outside(),
        path: Seq::empty(),
    }
}

/// Entering the element `name`: the option and bound elements, and the `<Text>` of the window's
/// name (`at_name` tells whether the path leads to it).
pub open spec fn enter(t: Tracking, name: Seq<char>, at_name: bool) -> Tracking {
    if name == "Options"@ {
        Tracking { options: true, ..t }
    } else if name == "Close"@ {
        Tracking { close: true, ..t }
    } else if name == "Minimize"@ {
        Tracking { minimize: true, ..t }
    } else if name == "Maximize"@ {
        Tracking { maximize: true, ..t }
    } else if name == "Resize"@ {
        Tracking { resize: true, ..t }
    } else if name == "MenuBar"@ {
        Tracking { menu_bar: true, ..t }
    } else if name == "Toolbar"@ {
        Tracking { toolbar: true, ..t }
    } else if name == "DimParentWindow"@ {
        Tracking { dim_parent_window: true, ..t }
    } else if name == "height"@ {
        Tracking { height: true, ..t }
    } else if name == "width"@ {
        Tracking { width: true, ..t }
    } else if name == "top"@ {
        Tracking { top: true, ..t }
    } else if name == "left"@ {
        Tracking { left: true, ..t }
    } else if name == "Text"@ && at_name {
        Tracking { name_calc: true, ..t }
    } else {
        t
    }
}

/// Leaving the element `name`: a `</Calculation>` leaves the window's name.
pub open spec fn leave(t: Tracking, name: Seq<char>) -> Tracking {
    if name == "Options"@ {
        Tracking { options: false, ..t }
    } else if name == "Close"@ {
        Tracking { close: false, ..t }
    } else if name == "Minimize"@ {
        Tracking { minimize: false, ..t }
    } else if name == "Maximize"@ {
        Tracking { maximize: false, ..t }
    } else if name == "Resize"@ {
        Tracking { resize: false, ..t }
    } else if name == "MenuBar"@ {
        Tracking { menu_bar: false, ..t }
    } else if name == "Toolbar"@ {
        Tracking { toolbar: false, ..t }
    } else if name == "DimParentWindow"@ {
        Tracking { dim_parent_window: false, ..t }
    } else if name == "height"@ {
        Tracking { height: false, ..t }
    } else if name == "width"@ {
        Tracking { width: false, ..t }
    } else if name == "top"@ {
        Tracking { top: false, ..t }
    } else if name == "left"@ {
        Tracking { left: false, ..t }
    } else if name == "Calculation"@ {
        Tracking { name_calc: false, ..t }
    } else {
        t
    }
}

/// The value `b` of an option text sets each option the reader is inside.
pub open spec fn set_options(o: WindowOptions, t: Tracking, b: bool) -> WindowOptions {
    WindowOptions {
        close: if t.close { b } else { o.close },
        minimize: if t.minimize { b } else { o.minimize },
        maximize: if t.maximize { b } else { o.maximize },
        resize: if t.resize { b } else { o.resize },
        menu_bar: if t.menu_bar { b } else { o.menu_bar },
        toolbar: if t.toolbar { b } else { o.toolbar },
        dim_parent_window: if t.dim_parent_window { b } else { o.dim_parent_window },
    }
}

/// A CDATA section becomes the name and each bound the reader is inside.
pub open spec fn take_cdata(x: WindowTexts, t: Tracking, content: Seq<char>) -> WindowTexts {
    WindowTexts {
        style: x.style,
        name: if t.name_calc { content } else { x.name },
        layout: x.layout,
        height: if t.height { Some(content) } else { x.height },
        width: if t.width { Some(content) } else { x.width },
        top: if t.top { Some(content) } else { x.top },
        left: if t.left { Some(content) } else { x.left },
    }
}

/// What a start tag other than a layout does, after its name joined the path: `<Step>` and
/// `<Style>` give their `name` (`None` where they have none); other elements may be entered.
pub open spec fn new_window_open(st: NewWindowView, name: Seq<char>, attributes: Attributes) -> Option<NewWindowView> {
    if name == "Step"@ {
        match first_attribute(attributes, "name"@) {
            Some(n) => Some(NewWindowView { step: n, ..st }),
            None => None,
        }
    } else if name == "Style"@ {
        match first_attribute(attributes, "name"@) {
            Some(n) => Some(NewWindowView { texts: WindowTexts { style: n, ..st.texts }, ..st }),
            None => None,
        }
    } else {
        Some(NewWindowView { inside: enter(st.inside, name, join_seq(st.path, "/"@) == WINDOW_NAME_PATH@), ..st })
    }
}

/// What a text does: inside the options, `True` or `False` (after unescaping; `None` where it
/// does not unescape) sets the options the reader is inside.
pub open spec fn new_window_text(st: NewWindowView, content: Seq<char>) -> Option<NewWindowView> {
    if !st.inside.options {
        Some(st)
    } else {
        match xml_unescaped(content) {
            None => None,
            Some(t) => if t == "True"@ {
                Some(NewWindowView { options: set_options(st.options, st.inside, true), ..st })
            } else if t == "False"@ {
                Some(NewWindowView { options: set_options(st.options, st.inside, false), ..st })
            } else {
                Some(st)
            },
        }
    }
}

/// What an end tag does: it leaves its element, and its name leaves the path.
pub open spec fn new_window_close(st: NewWindowView, name: Seq<char>) -> NewWindowView {
    NewWindowView {
        inside: leave(st.inside, name),
        path: if st.path.len() > 0 { st.path.drop_last() } else { st.path },
        ..st
    }
}

/// What reading the event at `pos` does: a layout is read whole (its name stays on the path)
/// and must show; other events go to the functions above. The new state and the position after
/// what was read; `None` where the step cannot be shown.
pub open spec fn new_window_event(evs: Seq<EventView>, pos: int, st: NewWindowView) -> Option<(NewWindowView, int)> {
    match evs[pos] {
        EventView::Start(name, attributes) => {
            let opened = NewWindowView { path: st.path.push(local_part(name)), ..st };
            if name == "LayoutReferenceContainer"@ {
                let (fields, end) = layout_parameter_scan(evs, pos + 1, evs[pos]);
                match layout_display(fields) {
                    Some(l) => Some((NewWindowView { texts: WindowTexts { layout: l, ..opened.texts }, ..opened }, end)),
                    None => None,
                }
            } else {
                match new_window_open(opened, name, attributes) {
                    Some(next) => Some((next, pos + 1)),
                    None => None,
                }
            }
        },
        EventView::Text(content) => match new_window_text(st, content) {
            Some(next) => Some((next, pos + 1)),
            None => None,
        },
        EventView::CData(content) => Some((NewWindowView { texts: take_cdata(st.texts, st.inside, content), ..st }, pos + 1)),
        EventView::End(name) => Some((new_window_close(st, name), pos + 1)),
        _ => Some((st, pos + 1)),
    }
}

/// Reading an event moves past it and stays within the list.
pub proof fn lemma_new_window_event_bounds(evs: Seq<EventView>, pos: int, st: NewWindowView)
    requires
        0 <= pos < evs.len(),
    ensures
        new_window_event(evs, pos, st) matches Some((_, end)) ==> pos < end <= evs.len(),
{
    lemma_layout_scan_bounds(evs, pos + 1, 1, (match event_attribute(evs[pos], "value"@) {
        Some(v) => v,
        None => Seq::empty(),
    }, None));
}

/// Reads a New Window step's events from `pos` on; `None` where the step cannot be shown.
pub open spec fn new_window_scan(evs: Seq<EventView>, pos: int, st: NewWindowView) -> Option<NewWindowView>
    decreases evs.len() - pos,
{
    if pos < 0 || pos >= evs.len() {
        Some(st)
    } else {
        match new_window_event(evs, pos, st) {
            None => None,
            Some((next, end)) => {
                proof {
                    lemma_new_window_event_bounds(evs, pos, st);
                }
                new_window_scan(evs, end, next)
            },
        }
    }
}

/// The parts of a New Window line that come from its texts: style, name, layout and bounds.
pub open spec fn text_parts(x: WindowTexts) -> Seq<Seq<char>> {
    let a = if x.style.len() > 0 { seq!["Style: "@ + x.style] } else { Seq::empty() };
    let b = if x.name.len() > 0 { a.push("Name: "@ + x.name) } else { a };
    let c = if x.layout.len() > 0 { b.push(x.layout) } else { b };
    with_label(with_label(with_label(with_label(c, "Height: "@, x.height), "Width: "@, x.width), "Top: "@, x.top), "Left: "@, x.left)
}

/// `parts` followed by the options that are off.
pub open spec fn off_options(parts: Seq<Seq<char>>, o: WindowOptions) -> Seq<Seq<char>> {
    let e = if !o.close { parts.push("Close: OFF"@) } else { parts };
    let f = if !o.minimize { e.push("Minimize: OFF"@) } else { e };
    let g = if !o.maximize { f.push("Maximize: OFF"@) } else { f };
    let h = if !o.resize { g.push("Resize: OFF"@) } else { g };
    let i = if !o.menu_bar { h.push("Menu: OFF"@) } else { h };
    if !o.toolbar { i.push("Toolbar: OFF"@) } else { i }
}

/// The parts of a New Window line: style, name, layout, bounds, and the options that are off.
pub open spec fn new_window_parts(x: WindowTexts, o: WindowOptions) -> Seq<Seq<char>> {
    off_options(text_parts(x), o)
}

/// The line of a New Window step whose events are `evs`: `None` where it cannot be shown
/// (a step or style without a name, a layout that does not show, an option text that does not
/// unescape); `Some(None)` without a step name.
pub open spec fn new_window_outcome(evs: Seq<EventView>) -> Option<Option<Seq<char>>> {
    match new_window_scan(evs, 0, new_window_start()) {
        None => None,
        Some(st) => Some(if st.step.len() == 0 {
            None
        } else {
            Some(bracketed(st.step, new_window_parts(st.texts, st.options)))
        }),
    }
}

impl Tracking {
    /// Inside nothing.
    fn new() -> (t: Tracking)
        ensures
            t == outside(),
    {
        Tracking {
            name_calc: false,
            options: false,
            close: false,
            minimize: false,
            maximize: false,
            resize: false,
            menu_bar: false,
            toolbar: false,
            dim_parent_window: false,
            height: false,
            width: false,
            top: false,
            left: false,
        }
    }

    /// After entering the element `name`.
    fn entered(self, name: &str, at_name: bool) -> (t: Tracking)
        ensures
            t == enter(self, name@, at_name),
    {
        if str_eq(name, "Options") {
            Tracking { options: true, ..self }
        } else if str_eq(name, "Close") {
            Tracking { close: true, ..self }
        } else if str_eq(name, "Minimize") {
            Tracking { minimize: true, ..self }
        } else if str_eq(name, "Maximize") {
            Tracking { maximize: true, ..self }
        } else if str_eq(name, "Resize") {
            Tracking { resize: true, ..self }
        } else if str_eq(name, "MenuBar") {
            Tracking { menu_bar: true, ..self }
        } else if str_eq(name, "Toolbar") {
            Tracking { toolbar: true, ..self }
        } else if str_eq(name, "DimParentWindow") {
            Tracking { dim_parent_window: true, ..self }
        } else if str_eq(name, "height") {
            Tracking { height: true, ..self }
        } else if str_eq(name, "width") {
            Tracking { width: true, ..self }
        } else if str_eq(name, "top") {
            Tracking { top: true, ..self }
        } else if str_eq(name, "left") {
            Tracking { left: true, ..self }
        } else if str_eq(name, "Text") && at_name {
            Tracking { name_calc: true, ..self }
        } else {
            self
        }
    }

    /// After leaving the element `name`.
    fn left(self, name: &str) -> (t: Tracking)
        ensures
            t == leave(self, name@),
    {
        if str_eq(name, "Options") {
            Tracking { options: false, ..self }
        } else if str_eq(name, "Close") {
            Tracking { close: false, ..self }
        } else if str_eq(name, "Minimize") {
            Tracking { minimize: false, ..self }
        } else if str_eq(name, "Maximize") {
            Tracking { maximize: false, ..self }
        } else if str_eq(name, "Resize") {
            Tracking { resize: false, ..self }
        } else if str_eq(name, "MenuBar") {
            Tracking { menu_bar: false, ..self }
        } else if str_eq(name, "Toolbar") {
            Tracking { toolbar: false, ..self }
        } else if str_eq(name, "DimParentWindow") {
            Tracking { dim_parent_window: false, ..self }
        } else if str_eq(name, "height") {
            Tracking { height: false, ..self }
        } else if str_eq(name, "width") {
            Tracking { width: false, ..self }
        } else if str_eq(name, "top") {
            Tracking { top: false, ..self }
        } else if str_eq(name, "left") {
            Tracking { left: false, ..self }
        } else if str_eq(name, "Calculation") {
            Tracking { name_calc: false, ..self }
        } else {
            self
        }
    }
}

impl WindowOptions {
    /// All options off.
    fn new() -> (o: WindowOptions)
        ensures
            o == new_window_start().options,
    {
        WindowOptions {
            close: false,
            minimize: false,
            maximize: false,
            resize: false,
            menu_bar: false,
            toolbar: false,
            dim_parent_window: false,
        }
    }

    /// The options with those the reader is inside set to `b`.
    fn set(self, t: Tracking, b: bool) -> (o: WindowOptions)
        ensures
            o == set_options(self, t, b),
    {
        WindowOptions {
            close: if t.close { b } else { self.close },
            minimize: if t.minimize { b } else { self.minimize },
            maximize: if t.maximize { b } else { self.maximize },
            resize: if t.resize { b } else { self.resize },
            menu_bar: if t.menu_bar { b } else { self.menu_bar },
            toolbar: if t.toolbar { b } else { self.toolbar },
            dim_parent_window: if t.dim_parent_window { b } else { self.dim_parent_window },
        }
    }
}

/// The texts read of a New Window step.
struct Texts {
    style: String,
    name: String,
    layout: String,
    height: Option<String>,
    width: Option<String>,
    top: Option<String>,
    left: Option<String>,
}

impl Texts {
    spec fn view(&self) -> WindowTexts {
        WindowTexts {
            style: self.style@,
            name: self.name@,
            layout: self.layout@,
            height: self.height.deep_view(),
            width: self.width.deep_view(),
            top: self.top.deep_view(),
            left: self.left.deep_view(),
        }
    }

    fn new() -> (x: Texts)
        ensures
            x.view() == new_window_start().texts,
    {
        Texts { style: String::new(), name: String::new(), layout: String::new(), height: None, width: None, top: None, left: None }
    }

    fn take_cdata(&mut self, t: Tracking, content: &String)
        ensures
            final(self).view() == take_cdata(old(self).view(), t, content@),
    {
        if t.name_calc {
            self.name = content.clone();
        }
        if t.height {
            self.height = Some(content.clone());
        }
        if t.width {
            self.width = Some(content.clone());
        }
        if t.top {
            self.top = Some(content.clone());
        }
        if t.left {
            self.left = Some(content.clone());
        }
    }

    /// The parts of the line that come from the texts.
    fn parts(&self) -> (parts: Vec<String>)
        ensures
            parts.deep_view() == text_parts(self.view()),
    {
        let mut parts: Vec<String> = Vec::new();
        if self.style.unicode_len() > 0 {
            parts.push(concat("Style: ", self.style.as_str()));
        }
        let ghost a = parts.deep_view();
        assert(a =~= (if self.style@.len() > 0 { seq!["Style: "@ + self.style@] } else { Seq::empty() }));
        if self.name.unicode_len() > 0 {
            parts.push(concat("Name: ", self.name.as_str()));
            assert(parts.deep_view() =~= a.push("Name: "@ + self.name@));
        }
        let ghost b = parts.deep_view();
        if self.layout.unicode_len() > 0 {
            parts.push(self.layout.clone());
            assert(parts.deep_view() =~= b.push(self.layout@));
        }
        push_labelled(&mut parts, "Height: ", self.height.clone());
        push_labelled(&mut parts, "Width: ", self.width.clone());
        push_labelled(&mut parts, "Top: ", self.top.clone());
        push_labelled(&mut parts, "Left: ", self.left.clone());
        parts
    }
}

/// Adds the options that are off to `parts`.
fn push_off_options(parts: &mut Vec<String>, o: WindowOptions)
    ensures
        final(parts).deep_view() == off_options(old(parts).deep_view(), o),
{
    if !o.close {
        push_text(parts, "Close: OFF");
    }
    if !o.minimize {
        push_text(parts, "Minimize: OFF");
    }
    if !o.maximize {
        push_text(parts, "Maximize: OFF");
    }
    if !o.resize {
        push_text(parts, "Resize: OFF");
    }
    if !o.menu_bar {
        push_text(parts, "Menu: OFF");
    }
    if !o.toolbar {
        push_text(parts, "Toolbar: OFF");
    }
}

/// What has been read of a New Window step, and where the reader is.
struct NewWindowState {
    step: String,
    texts: Texts,
    options: WindowOptions,
    inside: Tracking,
    path: Vec<String>,
}

impl NewWindowState {
    spec fn view(&self) -> NewWindowView {
        NewWindowView { step: self.step@, texts: self.texts.view(), options: self.options, inside: self.inside, path: self.path.deep_view() }
    }

    /// Reads the next event and what belongs to it; `false` where the step cannot be shown.
    #[verifier::rlimit(60)]
    #[verifier::spinoff_prover]
    fn advance(&mut self, reader: &mut XmlReader) -> (ok: bool)
        requires
            old(reader).pos < old(reader).evs().len(),
        ensures
            final(reader).events == old(reader).events,
            ok == (new_window_event(old(reader).evs(), old(reader).pos as int, old(self).view()) is Some),
            ok ==> new_window_event(old(reader).evs(), old(reader).pos as int, old(self).view())
                == Some((final(self).view(), final(reader).pos as int)),
    {
        let ghost evs = reader.evs();
        let ghost pos = reader.pos as int;
        let event = match reader.read_event() {
            Some(e) => e,
            None => {
                return false;
            },
        };
        match event {
            XmlEvent::Start { name, attributes } => {
                let ghost before = self.path.deep_view();
                self.path.push(local_name(name.as_str()));
                assert(self.path.deep_view() =~= before.push(local_part(name@)));
                if str_eq(name.as_str(), "LayoutReferenceContainer") {
                    let shown = match LayoutReferenceContainer::from_xml(reader, event) {
                        Ok(l) => l.display(),
                        Err(_) => None,
                    };
                    match shown {
                        Some(l) => {
                            self.texts.layout = l;
                            true
                        },
                        None => false,
                    }
                } else if str_eq(name.as_str(), "Step") {
                    match get_attribute(attributes, "name") {
                        Some(n) => {
                            self.step = n;
                            true
                        },
                        None => false,
                    }
                } else if str_eq(name.as_str(), "Style") {
                    match get_attribute(attributes, "name") {
                        Some(n) => {
                            self.texts.style = n;
                            true
                        },
                        None => false,
                    }
                } else {
                    let at_name = str_eq(join(&self.path, "/").as_str(), WINDOW_NAME_PATH);
                    self.inside = self.inside.entered(name.as_str(), at_name);
                    true
                }
            },
            XmlEvent::Text { content } => {
                if self.inside.options {
                    match unescape(content.as_str()) {
                        None => false,
                        Some(t) => {
                            if str_eq(t.as_str(), "True") {
                                self.options = self.options.set(self.inside, true);
                            } else if str_eq(t.as_str(), "False") {
                                self.options = self.options.set(self.inside, false);
                            }
                            true
                        },
                    }
                } else {
                    true
                }
            },
            XmlEvent::CData { content } => {
                self.texts.take_cdata(self.inside, content);
                true
            },
            XmlEvent::End { name } => {
                self.inside = self.inside.left(name.as_str());
                let ghost before = self.path.deep_view();
                if self.path.len() > 0 {
                    self.path.pop();
                    assert(self.path.deep_view() =~= before.drop_last());
                }
                true
            },
            _ => true,
        }
    }
}

/// The line of a New Window step read from its events: `None` where it cannot be shown,
/// `Some(None)` without a step name.
pub fn new_window_line(events: &Vec<XmlEvent>) -> (res: Option<Option<String>>)
    ensures
        res.deep_view() == new_window_outcome(events.deep_view()),
{
    let ghost evs = events.deep_view();
    let mut reader = XmlReader::new(events);
    let mut st = NewWindowState { step: String::new(), texts: Texts::new(), options: WindowOptions::new(), inside: Tracking::new(), path: Vec::new() };
    assert(st.path.deep_view() =~= Seq::<Seq<char>>::empty());
    while reader.pos < events.len()
        invariant
            reader.events == events,
            evs == reader.evs(),
            reader.pos <= evs.len(),
            new_window_scan(evs, reader.pos as int, st.view()) == new_window_scan(evs, 0, new_window_start()),
        decreases evs.len() - reader.pos,
    {
        proof {
            lemma_new_window_event_bounds(evs, reader.pos as int, st.view());
        }
        if !st.advance(&mut reader) {
            return None;
        }
    }
    if st.step.unicode_len() == 0 {
        return Some(None);
    }
    let mut parts = st.texts.parts();
    push_off_options(&mut parts, st.options);
    Some(Some(write_bracketed(st.step.as_str(), &parts)))
}

/// Whether the New Window step `step` can be shown.
pub open spec fn new_window_readable(step: Seq<char>) -> bool {
    new_window_outcome(xml_events(step)) is Some
}

/// The line of the New Window step whose XML is `step`; `None` where it has no name.
pub fn sanitize(step: &str) -> (res: Option<String>)
    requires
        new_window_readable(step@),
    ensures
        Some(res.deep_view()) == new_window_outcome(xml_events(step@)),
{
    let events = parse_events(step);
    match new_window_line(&events) {
        Some(line) => line,
        None => None,
    }
}

/// The line of the New Window step whose XML is `step`, as [`sanitize`] gives it; `None` where
/// it cannot be shown.
pub fn sanitize_checked(step: &str) -> (res: Option<Option<String>>)
    ensures
        res.deep_view() == new_window_outcome(xml_events(step@)),
{
    let events = parse_events(step);
    match new_window_line(&events) {
        Some(_) => Some(sanitize(step)),
        None => None,
    }
}

} // verus!
