//! Reading the text runs out of a document body with a pull parser.
//!
//! The parser is `quick_xml::Reader`. Nothing of it is verified here: what a
//! call gives is named, as a function of the reader's state, and the loop
//! that drives it is proved against those names.

use quick_xml::events::Event;
use quick_xml::Error;
use quick_xml::Reader;
use vstd::prelude::*;

verus! {

/// A pull parser over the bytes of a text.
#[verifier::external_body]
pub struct RunReader<'a> {
    inner: Reader<&'a [u8]>,
}

/// Where a reader stands between two events.
pub enum Stage {
    /// Outside markup: character data comes next.
    Content,
    /// Just behind a `<`: a tag comes next.
    Markup,
    /// The end of the input, or an error, has been reported.
    Finished,
}

/// The state of a reader over a byte slice, as far as it bears on what the
/// reader gives next.
pub struct ReaderState {
    /// The bytes of the input that have not been consumed.
    pub unread: Seq<u8>,
    /// The byte position that the reader reports.
    pub position: nat,
    /// Where the reader stands.
    pub stage: Stage,
    /// The names of the elements that are open, outermost first.
    pub open: Seq<Seq<u8>>,
    /// Whether white space round character data is trimmed.
    pub trim: bool,
}

/// What one call for the next event gives.
pub enum EventView {
    /// A start tag with this name.
    Start(Seq<u8>),
    /// The end of the input.
    End,
    /// Any other event.
    Other,
    /// An error, with its rendering.
    Failed(Seq<char>),
}

/// What one call for the text of an element gives.
pub enum TextView {
    /// The unescaped text up to the element's end tag.
    Text(Seq<char>),
    /// The element does not begin with text.
    Absent,
    /// An error, with its rendering.
    Failed(Seq<char>),
}

/// An event together with the state behind it.
pub struct EventStep {
    pub event: EventView,
    pub next: ReaderState,
}

/// An element's text together with the state behind it.
pub struct TextStep {
    pub text: TextView,
    pub next: ReaderState,
}

/// The state of a reader.
pub uninterp spec fn reader_state(reader: RunReader<'_>) -> ReaderState;

/// What `Reader::read_event` gives in a state, and the state it leaves.
pub uninterp spec fn event_step(state: ReaderState) -> EventStep;

/// What `Reader::read_text` gives in a state for an end name, and the state it
/// leaves.
pub uninterp spec fn text_step(state: ReaderState, end: Seq<u8>) -> TextStep;

/// The state of a reader that has just been made on `text`.
pub open spec fn fresh_state(text: Seq<char>) -> ReaderState {
    ReaderState {
        unread: vstd::utf8::encode_utf8(text),
        position: 0,
        stage: Stage::Content,
        open: Seq::empty(),
        trim: false,
    }
}

/// A state with the trimming of text switched on.
pub open spec fn trimming(state: ReaderState) -> ReaderState {
    ReaderState { trim: true, ..state }
}

/// The state in which the reading of a document body begins.
pub open spec fn initial_state(text: Seq<char>) -> ReaderState {
    trimming(fresh_state(text))
}

/// An event, as the library reads it.
#[derive(Debug)]
pub enum XmlEvent {
    Start(Vec<u8>),
    End,
    Other,
    Failed(String),
}

impl View for XmlEvent {
    type V = EventView;

    open spec fn view(&self) -> EventView {
        match self {
            XmlEvent::Start(name) => EventView::Start(name@),
            XmlEvent::End => EventView::End,
            XmlEvent::Other => EventView::Other,
            XmlEvent::Failed(detail) => EventView::Failed(detail@),
        }
    }
}

/// The text of an element, as the library reads it.
#[derive(Debug)]
pub enum XmlText {
    Text(String),
    Absent,
    Failed(String),
}

impl View for XmlText {
    type V = TextView;

    open spec fn view(&self) -> TextView {
        match self {
            XmlText::Text(run) => TextView::Text(run@),
            XmlText::Absent => TextView::Absent,
            XmlText::Failed(detail) => TextView::Failed(detail@),
        }
    }
}

/// Makes a reader on `text` with `Reader::from_str`. Trusted: the reader
/// starts at position 0 with the bytes of the whole text unread, no element
/// open and no trimming.
#[verifier::external_body]
fn open_reader<'a>(text: &'a str) -> (reader: RunReader<'a>)
    ensures
        reader_state(reader) == fresh_state(text@),
{
    RunReader { inner: Reader::from_str(text) }
}

/// Calls `Reader::trim_text` with `true`. Trusted: it switches the trimming
/// of text on and changes nothing else.
#[verifier::external_body]
fn trim_text(reader: &mut RunReader<'_>)
    ensures
        reader_state(*final(reader)) == trimming(reader_state(*old(reader))),
{
    reader.inner.trim_text(true);
}

/// Calls `Reader::read_event` with a fresh buffer. Trusted: the event and the
/// state left are those named for the state before; an event other than the
/// end of input has consumed at least one byte.
#[verifier::external_body]
fn next_event(reader: &mut RunReader<'_>) -> (event: XmlEvent)
    ensures
        event@ == event_step(reader_state(*old(reader))).event,
        reader_state(*final(reader)) == event_step(reader_state(*old(reader))).next,
        event@ is Start || event@ is Other ==> reader_state(*final(reader)).unread.len()
            < reader_state(*old(reader)).unread.len(),
{
    let mut buf = Vec::new();
    match reader.inner.read_event(&mut buf) {
        Ok(Event::Start(ref e)) => XmlEvent::Start(e.name().to_vec()),
        Ok(Event::Eof) => XmlEvent::End,
        Ok(_) => XmlEvent::Other,
        Err(e) => XmlEvent::Failed(format!("{:?}", e)),
    }
}

/// Calls `Reader::read_text` with a fresh buffer. Trusted: the text and the
/// state left are those named for the state before and the end name; unless
/// it fails, the call has consumed at least one byte.
#[verifier::external_body]
fn element_text(reader: &mut RunReader<'_>, end: &[u8]) -> (text: XmlText)
    ensures
        text@ == text_step(reader_state(*old(reader)), end@).text,
        reader_state(*final(reader)) == text_step(reader_state(*old(reader)), end@).next,
        !(text@ is Failed) ==> reader_state(*final(reader)).unread.len() < reader_state(
            *old(reader),
        ).unread.len(),
{
    match reader.inner.read_text(end, &mut Vec::new()) {
        Ok(run) => XmlText::Text(run),
        Err(Error::TextNotFound) => XmlText::Absent,
        Err(e) => XmlText::Failed(format!("{:?}", e)),
    }
}

/// Calls `Reader::buffer_position`. Trusted: it is the position of the state.
#[verifier::external_body]
fn position_of(reader: &RunReader<'_>) -> (position: usize)
    ensures
        position == reader_state(*reader).position,
{
    reader.inner.buffer_position()
}

/// Why a document body could not be read to its end.
#[derive(Debug)]
pub struct ParseFailure {
    /// The byte position that the parser reported after the error.
    pub byte_offset: usize,
    /// The parser's rendering of the error.
    pub detail: String,
}

/// A failure as a value.
pub struct ParseFailureView {
    pub byte_offset: nat,
    pub detail: Seq<char>,
}

impl View for ParseFailure {
    type V = ParseFailureView;

    open spec fn view(&self) -> ParseFailureView {
        ParseFailureView { byte_offset: self.byte_offset as nat, detail: self.detail@ }
    }
}

/// The name of the element that holds a text run: `w:t`.
pub open spec fn run_tag() -> Seq<u8> {
    seq![0x77u8, 0x3au8, 0x74u8]
}

/// `rest` with `run` put in front, where `rest` is no failure.
pub open spec fn with_run(
    run: Seq<char>,
    rest: Result<Seq<Seq<char>>, ParseFailureView>,
) -> Result<Seq<Seq<char>>, ParseFailureView> {
    match rest {
        Ok(runs) => Ok(seq![run] + runs),
        Err(failure) => Err(failure),
    }
}

/// `rest` behind the runs `done`, where `rest` is no failure.
pub open spec fn after_runs(
    done: Seq<Seq<char>>,
    rest: Result<Seq<Seq<char>>, ParseFailureView>,
) -> Result<Seq<Seq<char>>, ParseFailureView> {
    match rest {
        Ok(runs) => Ok(done + runs),
        Err(failure) => Err(failure),
    }
}

/// The runs that are read from a state on, or the first failure.
///
/// Events are taken one by one. A start tag named `w:t` is followed by a
/// request for the element's text: the text is a run, an element that does
/// not begin with text gives none, and an error ends the reading. An error
/// on an event ends it too; the end of the input ends it well. Every other
/// event is passed over. A step that consumed nothing would end the reading
/// with the runs so far; the parser always consumes, so this only makes the
/// definition total.
pub open spec fn runs_from(state: ReaderState) -> Result<Seq<Seq<char>>, ParseFailureView>
    decreases state.unread.len(),
{
    let step = event_step(state);
    match step.event {
        EventView::End => Ok(Seq::empty()),
        EventView::Failed(detail) => Err(
            ParseFailureView { byte_offset: step.next.position, detail },
        ),
        EventView::Other => if step.next.unread.len() < state.unread.len() {
            runs_from(step.next)
        } else {
            Ok(Seq::empty())
        },
        EventView::Start(name) => if step.next.unread.len() < state.unread.len() {
            if name == run_tag() {
                let read = text_step(step.next, name);
                match read.text {
                    TextView::Failed(detail) => Err(
                        ParseFailureView { byte_offset: read.next.position, detail },
                    ),
                    TextView::Text(run) => if read.next.unread.len() < step.next.unread.len() {
                        with_run(run, runs_from(read.next))
                    } else {
                        Ok(Seq::empty())
                    },
                    TextView::Absent => if read.next.unread.len() < step.next.unread.len() {
                        runs_from(read.next)
                    } else {
                        Ok(Seq::empty())
                    },
                }
            } else {
                runs_from(step.next)
            }
        } else {
            Ok(Seq::empty())
        },
    }
}

/// The runs of a document body given as text.
pub open spec fn runs_of(text: Seq<char>) -> Result<Seq<Seq<char>>, ParseFailureView> {
    runs_from(initial_state(text))
}

/// The outcome of reading runs, as plain values.
pub open spec fn runs_view(
    outcome: Result<Vec<String>, ParseFailure>,
) -> Result<Seq<Seq<char>>, ParseFailureView> {
    match outcome {
        Ok(runs) => Ok(crate::text::run_views(runs@)),
        Err(failure) => Err(failure@),
    }
}

/// Whether an element name is that of a text run.
pub fn is_run_tag(name: &Vec<u8>) -> (found: bool)
    ensures
        found == (name@ == run_tag()),
{
    let found = name.len() == 3 && name[0] == 0x77u8 && name[1] == 0x3au8 && name[2] == 0x74u8;
    proof {
        if found {
            assert(name@ =~= run_tag());
        }
    }
    found
}

/// Reads the text runs of a document body, in document order. Malformed
/// markup gives the failure with the position that the parser reports, and
/// no runs.
pub fn text_runs(text: &str) -> (outcome: Result<Vec<String>, ParseFailure>)
    ensures
        runs_view(outcome) == runs_of(text@),
{
    let mut reader = open_reader(text);
    trim_text(&mut reader);
    let mut runs: Vec<String> = Vec::new();
    loop
        invariant
            runs_of(text@) == after_runs(
                crate::text::run_views(runs@),
                runs_from(reader_state(reader)),
            ),
        decreases reader_state(reader).unread.len(),
    {
        let ghost before = reader_state(reader);
        let ghost done = crate::text::run_views(runs@);
        match next_event(&mut reader) {
            XmlEvent::End => {
                proof {
                    assert(done + Seq::<Seq<char>>::empty() =~= done);
                }
                return Ok(runs);
            },
            XmlEvent::Failed(detail) => {
                let byte_offset = position_of(&reader);
                return Err(ParseFailure { byte_offset, detail });
            },
            XmlEvent::Other => {},
            XmlEvent::Start(name) => {
                if is_run_tag(&name) {
                    match element_text(&mut reader, name.as_slice()) {
                        XmlText::Failed(detail) => {
                            let byte_offset = position_of(&reader);
                            return Err(ParseFailure { byte_offset, detail });
                        },
                        XmlText::Absent => {},
                        XmlText::Text(run) => {
                            let ghost rest = runs_from(reader_state(reader));
                            runs.push(run);
                            proof {
                                let grown = crate::text::run_views(runs@);
                                assert(grown =~= done.push(run@));
                                if let Ok(tail) = rest {
                                    assert(done + (seq![run@] + tail) =~= grown + tail);
                                }
                            }
                        },
                    }
                }
            },
        }
    }
}

} // verus!
