//! The feed's XML tokenizer, behind a small trusted boundary.
//!
//! The extractor drives a forward-only reader over the document and consumes
//! two things: the next structural event, reduced to the plain [`RawEvent`],
//! and the text content of an element it has just seen open. Both are
//! deterministic functions of the reader's state, which is modeled by two
//! names: the text the reader has not consumed yet ([`remaining_text`]) and
//! the stack of elements opened and not yet closed ([`open_elements`]). What
//! one call returns and leaves behind is named by [`read_event_of`] and
//! [`read_text_of`] over that state, so a caller's contract can tie its
//! result to the document itself.

use vstd::prelude::*;

verus! {

#[verifier::external_type_specification]
#[verifier::external_body]
#[verifier::reject_recursive_types(R)]
pub struct ExXmlReader<R>(quick_xml::Reader<R>);

/// One structural event of the document, reduced to what the extractor
/// dispatches on: an element opened (with its raw tag name), the end of the
/// document, a tokenizer error, or anything else.
pub enum RawEvent {
    Start(String),
    Eof,
    Malformed,
    Other,
}

/// The mathematical content of a [`RawEvent`].
pub enum RawEventModel {
    Start(Seq<char>),
    Eof,
    Malformed,
    Other,
}

impl View for RawEvent {
    type V = RawEventModel;

    open spec fn view(&self) -> RawEventModel {
        match self {
            RawEvent::Start(name) => RawEventModel::Start(name@),
            RawEvent::Eof => RawEventModel::Eof,
            RawEvent::Malformed => RawEventModel::Malformed,
            RawEvent::Other => RawEventModel::Other,
        }
    }
}

/// `s` without a leading byte-order mark, which the tokenizer discards
/// before reading anything else.
pub open spec fn strip_bom(s: Seq<char>) -> Seq<char> {
    if s.len() > 0 && s[0] == '\u{feff}' {
        s.drop_first()
    } else {
        s
    }
}

/// The text of the document that the reader has not consumed yet, not
/// counting a leading byte-order mark.
pub uninterp spec fn remaining_text(reader: quick_xml::Reader<&[u8]>) -> Seq<char>;

/// The names of the elements the reader has seen opened and not yet closed,
/// innermost last.
pub uninterp spec fn open_elements(reader: quick_xml::Reader<&[u8]>) -> Seq<Seq<char>>;

/// What one `Reader::read_event` call returns and leaves behind, as a
/// function of the reader's state: the event (reduced as [`RawEvent`] is),
/// the text then still unconsumed, and the new open-element stack.
pub uninterp spec fn read_event_of(rem: Seq<char>, open_tags: Seq<Seq<char>>) -> (
    RawEventModel,
    Seq<char>,
    Seq<Seq<char>>,
);

/// What one `Reader::read_text` call for the element named `tag` returns and
/// leaves behind, as a function of the reader's state and the name: the
/// element's text (`None` when the call fails), the text then still
/// unconsumed, and the new open-element stack.
pub uninterp spec fn read_text_of(rem: Seq<char>, open_tags: Seq<Seq<char>>, tag: Seq<char>) -> (
    Option<Seq<char>>,
    Seq<char>,
    Seq<Seq<char>>,
);

/// Relies on quick_xml's `Reader::from_str`: a forward-only tokenizer over
/// the string with the default configuration, positioned at the start of the
/// document (a leading byte-order mark is discarded), with no element open.
/// The constructor never panics.
#[verifier::external_body]
pub(crate) fn reader_from_str(s: &str) -> (reader: quick_xml::Reader<&[u8]>)
    ensures
        remaining_text(reader) == strip_bom(s@),
        open_elements(reader) == Seq::<Seq<char>>::empty(),
{
    quick_xml::Reader::from_str(s)
}

/// Relies on quick_xml's `Reader::read_event`: the next structural event of
/// the document, or an error for a malformed document; it never panics. With
/// the reader's fixed configuration the call is a deterministic function of
/// the reader's state, every event except end-of-document spans at least one
/// character of input, and a fully consumed document with no element still
/// open can only report end-of-document.
#[verifier::external_body]
pub(crate) fn next_event<'a>(reader: &mut quick_xml::Reader<&'a [u8]>) -> (ev: RawEvent)
    ensures
        ({
            let (head, rest, still_open) = read_event_of(
                remaining_text(*old(reader)),
                open_elements(*old(reader)),
            );
            &&& ev@ == head
            &&& remaining_text(*final(reader)) == rest
            &&& open_elements(*final(reader)) == still_open
            &&& (!(head is Eof) && !(head is Malformed) ==> rest.len() < remaining_text(
                *old(reader),
            ).len())
            &&& (remaining_text(*old(reader)).len() == 0 && open_elements(*old(reader)).len() == 0
                ==> head is Eof)
        }),
{
    match reader.read_event() {
        Ok(quick_xml::events::Event::Start(e)) => RawEvent::Start(
            e.name().into_inner().to_owned(),
        ),
        Ok(quick_xml::events::Event::Eof) => RawEvent::Eof,
        Ok(_) => RawEvent::Other,
        Err(_) => RawEvent::Malformed,
    }
}

/// Relies on quick_xml's `Reader::read_text`: the text between the just-read
/// start tag named `name` and its matching end tag, with line endings
/// normalized by `BytesText::xml10_content` (which decodes no entities); an
/// error (for instance a missing end tag) becomes `None`. The call is a
/// deterministic function of the reader's state and the name, only ever
/// consumes input, and never panics.
#[verifier::external_body]
pub(crate) fn read_element_text<'a>(
    reader: &mut quick_xml::Reader<&'a [u8]>,
    name: &str,
) -> (text: Option<String>)
    ensures
        ({
            let (content, rest, still_open) = read_text_of(
                remaining_text(*old(reader)),
                open_elements(*old(reader)),
                name@,
            );
            &&& (match text {
                Some(t) => Some(t@),
                None => None,
            }) == content
            &&& remaining_text(*final(reader)) == rest
            &&& open_elements(*final(reader)) == still_open
            &&& rest.len() <= remaining_text(*old(reader)).len()
        }),
{
    match reader.read_text(quick_xml::name::QName(name)) {
        Ok(content) => Some(content.xml10_content().into_owned()),
        Err(_) => None,
    }
}

} // verus!
