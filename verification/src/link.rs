//! The state shared between the background reader and the frontend: the
//! cooperative stop flag and the accumulated received text.
//!
//! The frontend keeps one `Link` behind its lock. The reader polls the
//! device, builds a [`ReadOutcome`] from each poll, and applies it here;
//! the frontend reads the log for display, may overwrite it on a manual
//! edit, and clears the flag to stop the reader.

use vstd::prelude::*;
use vstd::utf8::decode_utf8;
use vstd::utf8::encode_utf8;
use vstd::utf8::encode_utf8_decode_utf8;
use vstd::utf8::encode_utf8_valid_utf8;
use vstd::utf8::valid_utf8;
use vstd::string::StringExecFns;

verus! {

/// What one poll of the device produced: a chunk of bytes, a timeout
/// (no data arrived within the window), or a fatal error.
pub enum ReadOutcome {
    Data(Vec<u8>),
    TimedOut,
    Failed,
}

/// Ghost counterpart of [`ReadOutcome`], over a byte sequence.
pub enum ReadEvent {
    Data(Seq<u8>),
    TimedOut,
    Failed,
}

impl View for ReadOutcome {
    type V = ReadEvent;

    open spec fn view(&self) -> ReadEvent {
        match self {
            ReadOutcome::Data(bytes) => ReadEvent::Data(bytes@),
            ReadOutcome::TimedOut => ReadEvent::TimedOut,
            ReadOutcome::Failed => ReadEvent::Failed,
        }
    }
}

/// Ghost state of the shared link: whether the reader should keep
/// running, and the text received so far.
pub struct LinkState {
    pub running: bool,
    pub received: Seq<char>,
}

/// The link after the stop signal: the flag is cleared, the text kept.
pub open spec fn stop_signalled(l: LinkState) -> LinkState {
    LinkState { running: false, ..l }
}

/// The link after one read outcome: a chunk that decodes as UTF-8 is
/// appended to the text, a chunk that does not decode is dropped whole,
/// a timeout changes nothing, and a fatal error clears the flag.
pub open spec fn read_applied(l: LinkState, e: ReadEvent) -> LinkState {
    match e {
        ReadEvent::Data(bytes) => if valid_utf8(bytes) {
            LinkState { received: l.received + decode_utf8(bytes), ..l }
        } else {
            l
        },
        ReadEvent::TimedOut => l,
        ReadEvent::Failed => LinkState { running: false, ..l },
    }
}

/// Whether the reader goes on polling after this outcome: it stops only
/// on a fatal error.
pub open spec fn keeps_polling(e: ReadEvent) -> bool {
    !(e is Failed)
}

/// The link with the stop flag raised again, ready for a new reader;
/// the received text is kept across connections.
pub open spec fn armed(l: LinkState) -> LinkState {
    LinkState { running: true, ..l }
}

/// The link with its received text replaced by `text`.
pub open spec fn log_replaced(l: LinkState, text: Seq<char>) -> LinkState {
    LinkState { received: text, ..l }
}

/// Relies on `String::from_utf8`: it returns the decoded string exactly
/// when the bytes are a valid UTF-8 encoding, and an error otherwise.
#[verifier::external_body]
fn decode_chunk(bytes: Vec<u8>) -> (r: Option<String>)
    ensures
        r is Some <==> valid_utf8(bytes@),
        r is Some ==> r.unwrap()@ == decode_utf8(bytes@),
{
    match String::from_utf8(bytes) {
        Ok(text) => Some(text),
        Err(_) => None,
    }
}

/// The shared cell: the stop flag and the receive log.
pub struct Link {
    running: bool,
    received: String,
}

impl View for Link {
    type V = LinkState;

    closed spec fn view(&self) -> LinkState {
        LinkState { running: self.running, received: self.received@ }
    }
}

impl Link {
    /// A fresh link: the reader may run, nothing received yet.
    pub fn new() -> (r: Link)
        ensures
            r@.running,
            r@.received == Seq::<char>::empty(),
    {
        Link { running: true, received: String::new() }
    }

    /// The stop flag, as the reader polls it at the top of each
    /// iteration.
    pub fn is_running(&self) -> (r: bool)
        ensures
            r == self@.running,
    {
        self.running
    }

    /// Raises the stop flag again before a new reader is spawned; the
    /// text received over earlier connections is kept.
    pub fn arm(&mut self)
        ensures
            final(self)@ == armed(old(self)@),
    {
        self.running = true;
    }

    /// Signals the reader to stop; the received text is kept.
    pub fn request_stop(&mut self)
        ensures
            final(self)@ == stop_signalled(old(self)@),
    {
        self.running = false;
    }

    /// Applies one poll's outcome and says whether the reader should go
    /// on polling.
    pub fn apply_read(&mut self, outcome: ReadOutcome) -> (keep_going: bool)
        ensures
            final(self)@ == read_applied(old(self)@, outcome@),
            keep_going == keeps_polling(outcome@),
    {
        match outcome {
            ReadOutcome::Data(bytes) => {
                match decode_chunk(bytes) {
                    Some(text) => {
                        self.received.append(text.as_str());
                    }
                    None => {}
                }
                true
            }
            ReadOutcome::TimedOut => true,
            ReadOutcome::Failed => {
                self.running = false;
                false
            }
        }
    }

    /// A copy of everything received so far, for display.
    pub fn received_text(&self) -> (r: String)
        ensures
            r@ == self@.received,
    {
        self.received.clone()
    }

    /// Empties the receive log; the stop flag is untouched.
    pub fn clear_received(&mut self)
        ensures
            final(self)@ == log_replaced(old(self)@, Seq::<char>::empty()),
    {
        self.received = String::new();
    }

    /// Overwrites the receive log, as a manual edit of the display does.
    pub fn set_received(&mut self, text: String)
        ensures
            final(self)@ == log_replaced(old(self)@, text@),
    {
        self.received = text;
    }
}

/// The link after a whole run of read outcomes, applied in order.
pub open spec fn reads_applied(l: LinkState, events: Seq<ReadEvent>) -> LinkState
    decreases events.len(),
{
    if events.len() == 0 {
        l
    } else {
        reads_applied(read_applied(l, events[0]), events.drop_first())
    }
}

/// Over any run of polls in which no fatal error occurs — timeouts and
/// data in any order — the stop flag never drops: only a fatal error,
/// or an explicit stop signal, clears it.
pub proof fn lemma_no_fatal_keeps_running(l: LinkState, events: Seq<ReadEvent>)
    requires
        forall|i: int| 0 <= i < events.len() ==> !((#[trigger] events[i]) is Failed),
    ensures
        reads_applied(l, events).running == l.running,
    decreases events.len(),
{
    if events.len() > 0 {
        lemma_no_fatal_keeps_running(read_applied(l, events[0]), events.drop_first());
    }
}

/// The receive log is append-only under read outcomes: whatever one
/// poll does, the text already received stays in place as a prefix.
pub proof fn lemma_log_is_append_only(l: LinkState, e: ReadEvent)
    ensures
        read_applied(l, e).received.len() >= l.received.len(),
        read_applied(l, e).received.subrange(0, l.received.len() as int) == l.received,
{
    assert(read_applied(l, e).received.subrange(0, l.received.len() as int) =~= l.received);
}

/// Round trip through the wire encoding: a chunk that arrives as the
/// UTF-8 encoding of some text lands in the log as exactly that text.
pub proof fn lemma_encoded_text_round_trips(l: LinkState, text: Seq<char>)
    ensures
        read_applied(l, ReadEvent::Data(encode_utf8(text))).received == l.received + text,
{
    encode_utf8_valid_utf8(text);
    encode_utf8_decode_utf8(text);
}

/// A timeout leaves the link exactly as it was — in particular it never
/// clears the stop flag — and the reader keeps polling.
pub proof fn lemma_timeout_is_noop(l: LinkState)
    ensures
        read_applied(l, ReadEvent::TimedOut) == l,
        keeps_polling(ReadEvent::TimedOut),
{
}

/// Text decoded from a chunk lands in the received log appended after
/// the prior content, and reading data never touches the stop flag.
pub proof fn lemma_data_appended(l: LinkState, bytes: Seq<u8>)
    requires
        valid_utf8(bytes),
    ensures
        read_applied(l, ReadEvent::Data(bytes)).received == l.received + decode_utf8(bytes),
        read_applied(l, ReadEvent::Data(bytes)).running == l.running,
{
}

/// A fatal read error clears the stop flag and ends the polling.
pub proof fn lemma_fatal_stops(l: LinkState)
    ensures
        !read_applied(l, ReadEvent::Failed).running,
        !keeps_polling(ReadEvent::Failed),
{
}

} // verus!
