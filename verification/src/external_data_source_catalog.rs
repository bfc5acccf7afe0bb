//! The external data source catalog, kept whole.
use vstd::prelude::*;

use crate::xml::{clone_event, EventView, XmlEvent, XmlReader};

verus! {

/// Whether an event is kept in the copy of the catalog: start tags, end tags, text, CDATA and comments.
pub open spec fn is_kept(event: EventView) -> bool {
    event is Start || event is End || event is Text || event is CData || event is Comment
}

/// Reads the rest of the catalog from `pos` on, with `depth` elements open, keeping the events
/// that [`is_kept`] accepts after `content`. `Some` of the events up to and including the
/// catalog's end tag where it is reached; `None` where the events run out or a malformed piece
/// comes first. The position where reading stopped comes with it.
pub open spec fn external_scan(evs: Seq<EventView>, pos: int, depth: int, content: Seq<EventView>) -> (Option<Seq<EventView>>, int)
    decreases evs.len() - pos,
{
    if pos < 0 || pos >= evs.len() {
        (None, pos)
    } else {
        match evs[pos] {
            EventView::Malformed => (None, pos + 1),
            EventView::Start(_, _) => external_scan(evs, pos + 1, depth + 1, content.push(evs[pos])),
            EventView::End(_) => if depth - 1 == 0 {
                (Some(content.push(evs[pos])), pos + 1)
            } else {
                external_scan(evs, pos + 1, depth - 1, content.push(evs[pos]))
            },
            EventView::Text(_) => external_scan(evs, pos + 1, depth, content.push(evs[pos])),
            EventView::CData(_) => external_scan(evs, pos + 1, depth, content.push(evs[pos])),
            EventView::Comment(_) => external_scan(evs, pos + 1, depth, content.push(evs[pos])),
            _ => external_scan(evs, pos + 1, depth, content),
        }
    }
}

/// Reads the external data source catalog whose start tag `start` was the last event read: the
/// catalog's events, from its start tag to its end tag, that go to its file. `None` where the
/// catalog does not end (then nothing is written).
pub fn xml_extract_external_data_sources(reader: &mut XmlReader, start: &XmlEvent) -> (res: Option<Vec<XmlEvent>>)
    ensures
        final(reader).events == old(reader).events,
        final(reader).pos == external_scan(old(reader).evs(), old(reader).pos as int, 1, seq![start@]).1,
        res.deep_view() == external_scan(old(reader).evs(), old(reader).pos as int, 1, seq![start@]).0,
{
    let ghost evs = reader.evs();
    let ghost begin = reader.pos as int;
    let mut depth: i128 = 1;
    let mut content: Vec<XmlEvent> = Vec::new();
    content.push(clone_event(start));
    assert(content.deep_view() =~= seq![start@]);
    loop
        invariant_except_break
            -(reader.pos as int) <= depth <= reader.pos + 1,
            external_scan(evs, reader.pos as int, depth as int, content.deep_view())
                == external_scan(evs, begin, 1, seq![start@]),
        invariant
            reader.events == old(reader).events,
            evs == reader.evs(),
            begin == old(reader).pos,
        ensures
            external_scan(evs, begin, 1, seq![start@]).1 == reader.pos,
            external_scan(evs, begin, 1, seq![start@]).0 == if depth == 0 { Some(content.deep_view()) } else { None::<Seq<EventView>> },
        decreases evs.len() - reader.pos,
    {
        let ghost pos = reader.pos as int;
        match reader.read_event() {
            None => {
                depth = 1;
                break;
            },
            Some(event) => match event {
                XmlEvent::Malformed => {
                    depth = 1;
                    break;
                },
                XmlEvent::Start { .. } | XmlEvent::End { .. } | XmlEvent::Text { .. } | XmlEvent::CData { .. } | XmlEvent::Comment { .. } => {
                    let ghost before = content.deep_view();
                    content.push(clone_event(event));
                    assert(content.deep_view() =~= before.push(evs[pos]));
                    if let XmlEvent::Start { .. } = event {
                        depth = depth + 1;
                    } else if let XmlEvent::End { .. } = event {
                        depth = depth - 1;
                        if depth == 0 {
                            break;
                        }
                    }
                },
                _ => {},
            },
        }
    }
    if depth == 0 {
        Some(content)
    } else {
        None
    }
}

} // verus!
