use vstd::prelude::*;
use quick_xml::events::{BytesCData, BytesDecl, BytesEnd, BytesPI, BytesStart, BytesText, Event};

verus! {

broadcast use vstd::string::group_string_axioms;

// ---------------------------------------------------------------------------
// XML events read with quick_xml and written back with its writer
// ---------------------------------------------------------------------------

#[verifier::external_type_specification]
#[verifier::external_body]
#[verifier::reject_recursive_types(R)]
pub struct ExXmlReader<R>(quick_xml::Reader<R>);

#[verifier::external_type_specification]
#[verifier::external_body]
pub struct ExXmlEvent<'a>(quick_xml::events::Event<'a>);

#[verifier::external_type_specification]
#[verifier::external_body]
#[verifier::reject_recursive_types(W)]
pub struct ExXmlWriter<W>(quick_xml::Writer<W>);

#[verifier::external_type_specification]
#[verifier::external_body]
#[verifier::reject_recursive_types(T)]
pub struct ExCursor<T>(std::io::Cursor<T>);

/// The kinds of events of an XML document.
#[derive(Debug, PartialEq, Eq, Structural, Clone, Copy)]
pub enum XmlKind {
    Start,
    End,
    Empty,
    Text,
    CData,
    Comment,
    Decl,
    PI,
    DocType,
    Eof,
}

/// One event of an XML document, as plain values: its kind, its raw content (what stands
/// between the markup delimiters), the tag name and attributes (key, raw value) of a start or
/// empty tag (`None` for an attribute quick_xml could not read), and the unescaped text of a
/// text event.
#[derive(Debug)]
pub struct XmlEvent {
    pub kind: XmlKind,
    pub raw: String,
    pub name: String,
    pub attrs: Vec<Option<(String, String)>>,
    pub text: Result<String, String>,
}

/// An event as mathematical values.
pub struct XmlEventView {
    pub kind: XmlKind,
    pub raw: Seq<char>,
    pub name: Seq<char>,
    pub attrs: Seq<Option<(Seq<char>, Seq<char>)>>,
    pub text: Result<Seq<char>, Seq<char>>,
}

pub open spec fn attr_view(a: Option<(String, String)>) -> Option<(Seq<char>, Seq<char>)> {
    match a {
        Some(p) => Some((p.0@, p.1@)),
        None => None,
    }
}

impl View for XmlEvent {
    type V = XmlEventView;

    open spec fn view(&self) -> XmlEventView {
        XmlEventView {
            kind: self.kind,
            raw: self.raw@,
            name: self.name@,
            attrs: self.attrs@.map_values(|a: Option<(String, String)>| attr_view(a)),
            text: match self.text {
                Ok(t) => Ok(t@),
                Err(e) => Err(e@),
            },
        }
    }
}

/// The views of a sequence of events.
pub open spec fn events_view(evs: Seq<XmlEvent>) -> Seq<XmlEventView> {
    evs.map_values(|e: XmlEvent| e@)
}

/// The unescaped text of a text event, empty where unescaping failed (`unwrap_or_default`).
pub open spec fn text_or_empty(t: Result<Seq<char>, Seq<char>>) -> Seq<char> {
    match t {
        Ok(s) => s,
        Err(_) => Seq::empty(),
    }
}

/// The unescaped text of a text event, empty where unescaping failed.
pub fn event_text_or_empty(ev: &XmlEvent) -> (r: String)
    ensures
        r@ == text_or_empty(ev@.text),
{
    match &ev.text {
        Ok(t) => t.clone(),
        Err(_) => String::new(),
    }
}

/// An event to write: its kind and raw content.
#[derive(Debug)]
pub struct XmlOut {
    pub kind: XmlKind,
    pub raw: String,
}

/// What quick_xml's reader yields when it reads `content` from its start: every event before
/// the end of the document (the end itself not included), and the text of the error that
/// stops the reading where one does (the events are then those before it).
pub uninterp spec fn xml_events_of(content: Seq<char>) -> (Seq<XmlEventView>, Option<Seq<char>>);

/// What a quick_xml reader still yields from where it stands, in the form of [`xml_events_of`]
/// (the events it holds back for the calls to come).
pub uninterp spec fn xml_pending(reader: quick_xml::Reader<&[u8]>) -> (Seq<XmlEventView>, Option<Seq<char>>);

/// A quick_xml event as plain values: its variant, its raw content (its bytes read as UTF-8,
/// invalid sequences replaced), the name and attributes of a tag, the unescaped text of a text
/// event.
pub uninterp spec fn xml_event_view(ev: quick_xml::events::Event) -> XmlEventView;

/// `quick_xml::Reader::from_str`: a reader at the start of `content`, so it yields what
/// [`xml_events_of`] names for it.
#[verifier::external_body]
pub(crate) fn xml_reader<'a>(content: &'a str) -> (r: quick_xml::Reader<&'a [u8]>)
    ensures
        xml_pending(r) == xml_events_of(content@),
{
    quick_xml::Reader::from_str(content)
}

/// `quick_xml::Reader::read_event`; its error as text. It gives the first event the reader
/// holds and moves past it; with none left it gives the error that stops the reading, or the
/// end of the document. No event before the end is itself an end.
#[verifier::external_body]
pub(crate) fn xml_read_event<'a>(reader: &mut quick_xml::Reader<&'a [u8]>) -> (r: Result<
    quick_xml::events::Event<'a>,
    String,
>)
    ensures
        ({
            let (evs, err) = xml_pending(*old(reader));
            if evs.len() > 0 {
                &&& r matches Ok(ev) && xml_event_view(ev) == evs[0]
                &&& evs[0].kind != XmlKind::Eof
                &&& xml_pending(*final(reader)) == (evs.drop_first(), err)
            } else {
                match err {
                    Some(e) => r matches Err(m) && m@ == e,
                    None => r matches Ok(ev) && xml_event_view(ev).kind == XmlKind::Eof,
                }
            }
        }),
{
    match reader.read_event() {
        Ok(ev) => Ok(ev),
        Err(e) => Err(e.to_string()),
    }
}

/// The variant of a `quick_xml::events::Event`.
#[verifier::external_body]
pub(crate) fn xml_event_kind(ev: &quick_xml::events::Event) -> (r: XmlKind)
    ensures
        r == xml_event_view(*ev).kind,
{
    match ev {
        quick_xml::events::Event::Start(_) => XmlKind::Start,
        quick_xml::events::Event::End(_) => XmlKind::End,
        quick_xml::events::Event::Empty(_) => XmlKind::Empty,
        quick_xml::events::Event::Text(_) => XmlKind::Text,
        quick_xml::events::Event::CData(_) => XmlKind::CData,
        quick_xml::events::Event::Comment(_) => XmlKind::Comment,
        quick_xml::events::Event::Decl(_) => XmlKind::Decl,
        quick_xml::events::Event::PI(_) => XmlKind::PI,
        quick_xml::events::Event::DocType(_) => XmlKind::DocType,
        quick_xml::events::Event::Eof => XmlKind::Eof,
    }
}

/// The raw content of an event (`Event`'s `Deref` to bytes), as text.
#[verifier::external_body]
pub(crate) fn xml_event_raw(ev: &quick_xml::events::Event) -> (r: String)
    ensures
        r@ == xml_event_view(*ev).raw,
{
    String::from_utf8_lossy(ev).into_owned()
}

/// `BytesStart::name` / `BytesEnd::name` of a tag event, as text (empty for other events).
#[verifier::external_body]
pub(crate) fn xml_event_name(ev: &quick_xml::events::Event) -> (r: String)
    ensures
        r@ == xml_event_view(*ev).name,
{
    match ev {
        quick_xml::events::Event::Start(b) => String::from_utf8_lossy(b.name().as_ref()).into_owned(),
        quick_xml::events::Event::Empty(b) => String::from_utf8_lossy(b.name().as_ref()).into_owned(),
        quick_xml::events::Event::End(b) => String::from_utf8_lossy(b.name().as_ref()).into_owned(),
        _ => String::new(),
    }
}

/// `BytesStart::attributes` of a start or empty tag: key and raw value of each, `None` for one
/// it could not read (empty for other events).
#[verifier::external_body]
pub(crate) fn xml_event_attributes(ev: &quick_xml::events::Event) -> (r: Vec<Option<(String, String)>>)
    ensures
        r@.map_values(|a: Option<(String, String)>| attr_view(a)) == xml_event_view(*ev).attrs,
{
    match ev {
        quick_xml::events::Event::Start(b) | quick_xml::events::Event::Empty(b) => b.attributes().map(
            |a|
                a.ok().map(
                    |a|
                        (
                            String::from_utf8_lossy(a.key.as_ref()).into_owned(),
                            String::from_utf8_lossy(&a.value).into_owned(),
                        ),
                ),
        ).collect(),
        _ => Vec::new(),
    }
}

/// `BytesText::unescape` of a text event (empty for other events); its error as text.
#[verifier::external_body]
pub(crate) fn xml_event_unescape(ev: &quick_xml::events::Event) -> (r: Result<String, String>)
    ensures
        xml_event_view(*ev).text == (match r {
            Ok(t) => Ok::<Seq<char>, Seq<char>>(t@),
            Err(e) => Err::<Seq<char>, Seq<char>>(e@),
        }),
{
    match ev {
        quick_xml::events::Event::Text(t) => match t.unescape() {
            Ok(s) => Ok(s.into_owned()),
            Err(e) => Err(e.to_string()),
        },
        _ => Ok(String::new()),
    }
}

/// The text of an optional error.
pub open spec fn opt_text(e: Option<String>) -> Option<Seq<char>> {
    match e {
        Some(t) => Some(t@),
        None => None,
    }
}

/// The events of `content` as quick_xml reads them (see [`xml_events_of`]): up to the end of
/// the document (not included), or up to an error, then given as the second component.
pub fn read_xml_events(content: &str) -> (r: (Vec<XmlEvent>, Option<String>))
    ensures
        events_view(r.0@) == xml_events_of(content@).0,
        opt_text(r.1) == xml_events_of(content@).1,
        forall|i: int| 0 <= i < r.0@.len() ==> #[trigger] r.0@[i].kind != XmlKind::Eof,
{
    let mut reader = xml_reader(content);
    let mut events: Vec<XmlEvent> = Vec::new();
    assert(events_view(events@) + xml_pending(reader).0 =~= xml_events_of(content@).0);
    loop
        invariant
            events_view(events@) + xml_pending(reader).0 == xml_events_of(content@).0,
            xml_pending(reader).1 == xml_events_of(content@).1,
            forall|i: int| 0 <= i < events@.len() ==> #[trigger] events@[i].kind != XmlKind::Eof,
        decreases xml_pending(reader).0.len(),
    {
        let ghost before = xml_pending(reader);
        let ev = match xml_read_event(&mut reader) {
            Ok(ev) => ev,
            Err(e) => {
                assert(events_view(events@) =~= xml_events_of(content@).0);
                return (events, Some(e));
            },
        };
        let kind = xml_event_kind(&ev);
        if kind == XmlKind::Eof {
            assert(events_view(events@) =~= xml_events_of(content@).0);
            return (events, None);
        }
        let raw = xml_event_raw(&ev);
        let name = xml_event_name(&ev);
        let attrs = xml_event_attributes(&ev);
        let text = xml_event_unescape(&ev);
        let item = XmlEvent { kind, raw, name, attrs, text };
        assert(item@ == before.0[0]);
        let ghost old_events = events@;
        events.push(item);
        assert(events_view(events@) =~= events_view(old_events).push(before.0[0]));
        assert(events_view(events@) + xml_pending(reader).0 =~= events_view(old_events) + before.0);
    }
}

// ---------------------------------------------------------------------------
// Writing
// ---------------------------------------------------------------------------

/// What a quick_xml writer into a byte buffer has written so far.
pub uninterp spec fn xml_written(w: quick_xml::Writer<std::io::Cursor<Vec<u8>>>) -> Seq<u8>;

/// The text that quick_xml's (non-indenting) writer writes for an event of kind `kind`
/// whose raw content is `raw`.
pub open spec fn xml_out_text(kind: XmlKind, raw: Seq<char>) -> Seq<char> {
    match kind {
        XmlKind::Start => "<"@ + raw + ">"@,
        XmlKind::End => "</"@ + raw + ">"@,
        XmlKind::Empty => "<"@ + raw + "/>"@,
        XmlKind::Text => raw,
        XmlKind::CData => "<![CDATA["@ + raw + "]]>"@,
        XmlKind::Comment => "<!--"@ + raw + "-->"@,
        XmlKind::Decl => "<?"@ + raw + "?>"@,
        XmlKind::PI => "<?"@ + raw + "?>"@,
        XmlKind::DocType => "<!DOCTYPE "@ + raw + ">"@,
        XmlKind::Eof => Seq::empty(),
    }
}

/// `quick_xml::Writer::new` over an empty in-memory buffer.
#[verifier::external_body]
pub(crate) fn xml_writer() -> (w: quick_xml::Writer<std::io::Cursor<Vec<u8>>>)
    ensures
        xml_written(w) == Seq::<u8>::empty(),
{
    quick_xml::Writer::new(std::io::Cursor::new(Vec::new()))
}

/// `quick_xml::Writer::write_event` of the event of kind `kind` whose content is `raw` (built
/// with `BytesStart::from_content`, `BytesEnd::new`, `BytesText::from_escaped`,
/// `BytesCData::new`, `BytesDecl::from_start`, `BytesPI::new`). The writer does not indent; it
/// appends the UTF-8 bytes of [`xml_out_text`], the event's delimiters around its content.
/// Its only errors are those of the buffer's `write_all`, and a buffer in memory (a
/// `Cursor<Vec<u8>>`) grows as a vector does, so the write succeeds.
#[verifier::external_body]
pub(crate) fn xml_write(w: &mut quick_xml::Writer<std::io::Cursor<Vec<u8>>>, kind: XmlKind, raw: &str)
    -> (r: Result<(), String>)
    ensures
        r is Ok,
        xml_written(*final(w)) == xml_written(*old(w)) + vstd::utf8::encode_utf8(
            xml_out_text(kind, raw@),
        ),
{
    let ev = match kind {
        XmlKind::Start => Event::Start(BytesStart::from_content(raw, 0)),
        XmlKind::End => Event::End(BytesEnd::new(raw)),
        XmlKind::Empty => Event::Empty(BytesStart::from_content(raw, 0)),
        XmlKind::Text => Event::Text(BytesText::from_escaped(raw)),
        XmlKind::CData => Event::CData(BytesCData::new(raw)),
        XmlKind::Comment => Event::Comment(BytesText::from_escaped(raw)),
        XmlKind::Decl => Event::Decl(BytesDecl::from_start(BytesStart::from_content(raw, 3))),
        XmlKind::PI => Event::PI(BytesPI::new(raw)),
        XmlKind::DocType => Event::DocType(BytesText::from_escaped(raw)),
        XmlKind::Eof => Event::Eof,
    };
    w.write_event(ev).map_err(|e| e.to_string())
}

/// The buffer of a quick_xml writer (`Writer::into_inner`, `Cursor::into_inner`).
#[verifier::external_body]
pub(crate) fn xml_writer_bytes(w: quick_xml::Writer<std::io::Cursor<Vec<u8>>>) -> (r: Vec<u8>)
    ensures
        r@ == xml_written(w),
{
    w.into_inner().into_inner()
}

/// `String::from_utf8`: the text of valid UTF-8 bytes, or the error's text.
#[verifier::external_body]
pub(crate) fn string_from_utf8(bytes: Vec<u8>) -> (r: Result<String, String>)
    ensures
        r matches Ok(s) ==> vstd::utf8::valid_utf8(bytes@) && s@ == vstd::utf8::decode_utf8(
            bytes@,
        ),
        r is Err ==> !vstd::utf8::valid_utf8(bytes@),
{
    String::from_utf8(bytes).map_err(|e| e.to_string())
}

pub proof fn lemma_encode_utf8_concat(a: Seq<char>, b: Seq<char>)
    ensures
        vstd::utf8::encode_utf8(a + b) == vstd::utf8::encode_utf8(a) + vstd::utf8::encode_utf8(b),
    decreases a.len(),
{
    if a.len() > 0 {
        lemma_encode_utf8_concat(a.drop_first(), b);
        assert((a + b).drop_first() == a.drop_first() + b);
    } else {
        assert(a + b == b);
    }
}

/// The text of a sequence of written events.
pub open spec fn xml_outs_text(outs: Seq<(XmlKind, Seq<char>)>) -> Seq<char>
    decreases outs.len(),
{
    if outs.len() == 0 {
        Seq::empty()
    } else {
        xml_outs_text(outs.drop_last()) + xml_out_text(outs.last().0, outs.last().1)
    }
}

pub open spec fn outs_view(outs: Seq<XmlOut>) -> Seq<(XmlKind, Seq<char>)> {
    Seq::new(outs.len(), |i: int| (outs[i].kind, outs[i].raw@))
}

/// Writes the events with quick_xml and gives the document's text.
pub fn write_xml_events(outs: &Vec<XmlOut>) -> (r: Result<String, String>)
    ensures
        r matches Ok(s) && s@ == xml_outs_text(outs_view(outs@)),
{
    let mut w = xml_writer();
    let mut i: usize = 0;
    while i < outs.len()
        invariant
            i <= outs@.len(),
            xml_written(w) == vstd::utf8::encode_utf8(xml_outs_text(outs_view(outs@).take(i as int))),
        decreases outs@.len() - i,
    {
        match xml_write(&mut w, outs[i].kind, outs[i].raw.as_str()) {
            Ok(()) => {},
            Err(e) => {
                return Err(e);
            },
        }
        proof {
            let before = outs_view(outs@).take(i as int);
            let now = outs_view(outs@).take(i + 1);
            assert(now.drop_last() == before);
            lemma_encode_utf8_concat(xml_outs_text(before), xml_out_text(outs@[i as int].kind, outs@[i as int].raw@));
        }
        i = i + 1;
    }
    assert(outs_view(outs@).take(outs@.len() as int) == outs_view(outs@));
    let bytes = xml_writer_bytes(w);
    proof {
        vstd::utf8::encode_utf8_valid_utf8(xml_outs_text(outs_view(outs@)));
        vstd::utf8::encode_utf8_decode_utf8(xml_outs_text(outs_view(outs@)));
    }
    string_from_utf8(bytes)
}

// ---------------------------------------------------------------------------
// Escaping, as `push_attribute` and `BytesText::new` apply it
// ---------------------------------------------------------------------------

/// `quick_xml::escape::escape`: `<`, `>`, `&`, `'` and `"` replaced by their entities.
pub open spec fn xml_escape(s: Seq<char>) -> Seq<char>
    decreases s.len(),
{
    if s.len() == 0 {
        Seq::empty()
    } else {
        let c = s.last();
        xml_escape(s.drop_last()) + if c == '<' {
            "&lt;"@
        } else if c == '>' {
            "&gt;"@
        } else if c == '&' {
            "&amp;"@
        } else if c == '\'' {
            "&apos;"@
        } else if c == '"' {
            "&quot;"@
        } else {
            seq![c]
        }
    }
}

/// `quick_xml::escape::escape`: the text with each of `<`, `>`, `&`, `'` and `"` replaced by its
/// entity, everything else kept.
#[verifier::external_body]
pub(crate) fn escape_text(s: &str) -> (r: String)
    ensures
        r@ == xml_escape(s@),
{
    quick_xml::escape::escape(s).into_owned()
}

/// Escaped text holds no `<`, `>`, `"` or `'`: it cannot close or open markup or end an
/// attribute's value.
pub proof fn law_escape_leaves_no_markup(s: Seq<char>)
    ensures
        !xml_escape(s).contains('<'),
        !xml_escape(s).contains('>'),
        !xml_escape(s).contains('"'),
        !xml_escape(s).contains('\''),
    decreases s.len(),
{
    reveal_strlit("&lt;");
    reveal_strlit("&gt;");
    reveal_strlit("&amp;");
    reveal_strlit("&apos;");
    reveal_strlit("&quot;");
    if s.len() > 0 {
        law_escape_leaves_no_markup(s.drop_last());
        let init = xml_escape(s.drop_last());
        let c = s.last();
        let tail = if c == '<' {
            "&lt;"@
        } else if c == '>' {
            "&gt;"@
        } else if c == '&' {
            "&amp;"@
        } else if c == '\'' {
            "&apos;"@
        } else if c == '"' {
            "&quot;"@
        } else {
            seq![c]
        };
        assert(xml_escape(s) == init + tail);
        assert forall|x: char| x == '<' || x == '>' || x == '"' || x == '\'' implies !(init + tail).contains(x) by {
            if (init + tail).contains(x) {
                let k = choose|k: int| 0 <= k < (init + tail).len() && (init + tail)[k] == x;
                if k < init.len() {
                    assert(init[k] == x);
                } else {
                    assert(tail[k - init.len()] == x);
                }
            }
        }
    }
}

} // verus!
