//! The foreground session: the connection manager's state and every
//! decision the frontend takes on a user command.
//!
//! The frontend owns one [`Session`]. It asks it whether a command may
//! proceed ([`Session::connect_request`], [`Session::send_request`]),
//! performs the device I/O itself, and reports the outcome back
//! ([`Session::connect_succeeded`], [`Session::connect_failed`],
//! [`Session::send_succeeded`], [`Session::disconnect`],
//! [`Session::apply_port_scan`]).

use vstd::prelude::*;
use vstd::string::StringExecFns;
use crate::config::ConnectionConfig;
use crate::config::READ_TIMEOUT_MS;
use crate::config::clamp_baud;
use crate::config::clamped_baud;
use crate::config::valid_baud;
use crate::link::Link;
use crate::link::LinkState;
use crate::link::stop_signalled;

verus! {

/// Ghost state of the session.
///
/// `reader_attached` says whether the foreground holds a join handle
/// for a reader — there is a reader execution exactly when it does —
/// and `writer_attached` whether it holds a reference to the open
/// device.
#[verifier::ext_equal]
pub struct SessionState {
    pub ports: Seq<Seq<char>>,
    pub selected: Option<Seq<char>>,
    pub baud: u32,
    pub send: Seq<char>,
    pub connected: bool,
    pub status: Seq<char>,
    pub reader_attached: bool,
    pub writer_attached: bool,
}

impl SessionState {
    /// The session's invariant: the connected flag, the reader handle
    /// and the device reference are taken and released together, and
    /// the chosen baud rate stays in range.
    pub open spec fn wf(&self) -> bool {
        &&& self.connected == self.reader_attached
        &&& self.connected == self.writer_attached
        &&& valid_baud(self.baud)
    }
}

/// The state a fresh session starts in: nothing enumerated or selected,
/// the default baud rate, no connection.
pub open spec fn initial_session() -> SessionState {
    SessionState {
        ports: Seq::empty(),
        selected: None,
        baud: 9600u32,
        send: Seq::empty(),
        connected: false,
        status: Seq::empty(),
        reader_attached: false,
        writer_attached: false,
    }
}

/// The session after the port list is replaced by `ports`.
pub open spec fn ports_replaced(s: SessionState, ports: Seq<Seq<char>>) -> SessionState {
    SessionState { ports: ports, ..s }
}

/// The session after a port scan: a successful enumeration replaces
/// the list with the scanned names, and a failed one degrades to an
/// empty list — "no ports shown" — rather than failing the caller.
pub open spec fn scan_applied(s: SessionState, scan: Option<Seq<Seq<char>>>) -> SessionState {
    match scan {
        Some(names) => ports_replaced(s, names),
        None => ports_replaced(s, Seq::empty()),
    }
}

/// The session after the user picks the port named `name`.
pub open spec fn port_selected(s: SessionState, name: Seq<char>) -> SessionState {
    SessionState { selected: Some(name), ..s }
}

/// The session after the user dials in `baud`, forced into range.
pub open spec fn baud_chosen(s: SessionState, baud: u32) -> SessionState {
    SessionState { baud: clamped_baud(baud), ..s }
}

/// The session after the user edits the send field to `text`.
pub open spec fn send_text_edited(s: SessionState, text: Seq<char>) -> SessionState {
    SessionState { send: text, ..s }
}

/// The session once the device opened: connected, one reader spawned
/// and its handle held, the device reference held, and a success
/// status.
pub open spec fn connect_accepted(s: SessionState) -> SessionState {
    SessionState {
        connected: true,
        reader_attached: true,
        writer_attached: true,
        status: "Connected"@,
        ..s
    }
}

/// The session once the open failed with `err`: nothing attached,
/// only the status changes, and it carries the error's description.
pub open spec fn connect_rejected(s: SessionState, err: Seq<char>) -> SessionState {
    SessionState { status: "Connection error: "@ + err, ..s }
}

/// The session after a successful send: the input field is cleared so
/// the user can type the next line.
pub open spec fn input_cleared(s: SessionState) -> SessionState {
    SessionState { send: Seq::empty(), ..s }
}

/// The session after a disconnect: nothing attached, not connected,
/// and a "Disconnected" status. Everything else is kept.
pub open spec fn disconnected(s: SessionState) -> SessionState {
    SessionState {
        connected: false,
        reader_attached: false,
        writer_attached: false,
        status: "Disconnected"@,
        ..s
    }
}

/// The foreground session state.
pub struct Session {
    available_ports: Vec<String>,
    selected_port: Option<String>,
    baud_rate: u32,
    send_buffer: String,
    connected: bool,
    status_message: String,
    reader_attached: bool,
    writer_attached: bool,
}

impl View for Session {
    type V = SessionState;

    closed spec fn view(&self) -> SessionState {
        SessionState {
            ports: self.available_ports.deep_view(),
            selected: self.selected_port.deep_view(),
            baud: self.baud_rate,
            send: self.send_buffer@,
            connected: self.connected,
            status: self.status_message@,
            reader_attached: self.reader_attached,
            writer_attached: self.writer_attached,
        }
    }
}

impl Session {
    /// A fresh, disconnected session.
    pub fn new() -> (r: Session)
        ensures
            r@ == initial_session(),
            r@.wf(),
    {
        let r = Session {
            available_ports: Vec::new(),
            selected_port: None,
            baud_rate: 9600,
            send_buffer: String::new(),
            connected: false,
            status_message: String::new(),
            reader_attached: false,
            writer_attached: false,
        };
        proof {
            assert(r@ =~~= initial_session());
        }
        r
    }

    /// Stores the outcome of a port scan the frontend ran: the fresh
    /// names when enumeration succeeded, and an empty list when it
    /// failed — enumeration failures are non-fatal and degrade to "no
    /// ports shown". Everything else is kept.
    pub fn apply_port_scan(&mut self, scan: Option<Vec<String>>)
        ensures
            final(self)@ == scan_applied(old(self)@, scan.deep_view()),
            old(self)@.wf() ==> final(self)@.wf(),
    {
        match scan {
            Some(names) => {
                self.available_ports = names;
            }
            None => {
                self.available_ports = Vec::new();
                proof {
                    assert(self.available_ports.deep_view() =~~= Seq::<Seq<char>>::empty());
                }
            }
        }
    }

    /// Records the port the user picked.
    pub fn select_port(&mut self, name: String)
        ensures
            final(self)@ == port_selected(old(self)@, name@),
            old(self)@.wf() ==> final(self)@.wf(),
    {
        self.selected_port = Some(name);
    }

    /// Records the baud rate the user dialed in, forced into range.
    pub fn set_baud(&mut self, baud: u32)
        ensures
            final(self)@ == baud_chosen(old(self)@, baud),
            old(self)@.connected == final(self)@.connected,
            old(self)@.wf() ==> final(self)@.wf(),
    {
        self.baud_rate = clamp_baud(baud);
    }

    /// Records the current contents of the send field.
    pub fn set_send_text(&mut self, text: String)
        ensures
            final(self)@ == send_text_edited(old(self)@, text@),
            old(self)@.wf() ==> final(self)@.wf(),
    {
        self.send_buffer = text;
    }

    /// Decides a connect command: it proceeds exactly when a port is
    /// selected and no connection is active, and then carries that
    /// port, the dialed-in baud rate and the fixed read timeout. A
    /// click with no port selected, or while connected, is a no-op.
    pub fn connect_request(&self) -> (r: Option<ConnectionConfig>)
        ensures
            r is Some <==> (!self@.connected && self@.selected is Some),
            r is Some ==> r.unwrap().port@ == self@.selected.unwrap(),
            r is Some ==> r.unwrap().baud == self@.baud,
            r is Some ==> r.unwrap().timeout_ms == READ_TIMEOUT_MS,
            self@.wf() && r is Some ==> r.unwrap().wf(),
    {
        if !self.connected && self.selected_port.is_some() {
            Some(ConnectionConfig {
                port: self.selected_port.as_ref().unwrap().clone(),
                baud: self.baud_rate,
                timeout_ms: READ_TIMEOUT_MS,
            })
        } else {
            None
        }
    }

    /// Records a successful open: the session is connected, it holds
    /// the device reference and the one reader's join handle, and the
    /// status reports success.
    pub fn connect_succeeded(&mut self)
        ensures
            final(self)@ == connect_accepted(old(self)@),
            final(self)@.wf() == valid_baud(old(self)@.baud),
    {
        self.connected = true;
        self.reader_attached = true;
        self.writer_attached = true;
        self.status_message = "Connected".to_owned();
    }

    /// Records a failed open: the status carries the error's
    /// description; the connection state is untouched, so a session
    /// that was disconnected stays disconnected and no reader exists.
    pub fn connect_failed(&mut self, err: String)
        ensures
            final(self)@ == connect_rejected(old(self)@, err@),
            final(self)@.connected == old(self)@.connected,
            final(self)@.reader_attached == old(self)@.reader_attached,
            old(self)@.wf() ==> final(self)@.wf(),
    {
        let mut message = "Connection error: ".to_owned();
        message.append(err.as_str());
        self.status_message = message;
    }

    /// Decides a send command: it proceeds exactly when the session is
    /// connected and the send field is not empty, and then carries the
    /// field's text with the newline terminator appended — nothing
    /// else is added. On failure the caller leaves the field alone, so
    /// the user can retry.
    pub fn send_request(&self) -> (r: Option<String>)
        ensures
            r is Some <==> (self@.connected && self@.send.len() > 0),
            r is Some ==> r.unwrap()@ == self@.send + "\n"@,
    {
        if self.connected && !self.send_buffer.as_str().is_empty() {
            let mut data = self.send_buffer.clone();
            data.append("\n");
            Some(data)
        } else {
            None
        }
    }

    /// Records a successful send: the input field is cleared.
    pub fn send_succeeded(&mut self)
        ensures
            final(self)@ == input_cleared(old(self)@),
            old(self)@.wf() ==> final(self)@.wf(),
    {
        self.send_buffer = String::new();
    }

    /// Disconnects: signals the reader to stop through the link, lets
    /// go of the device reference and the reader's join handle, and
    /// records the disconnected status. Safe to call — and a state
    /// no-op — when already disconnected, so a second disconnect ends
    /// in the same state as the first.
    pub fn disconnect(&mut self, link: &mut Link)
        ensures
            final(self)@ == disconnected(old(self)@),
            final(link)@ == stop_signalled(old(link)@),
            old(self)@.wf() ==> final(self)@.wf(),
    {
        link.request_stop();
        self.writer_attached = false;
        self.reader_attached = false;
        self.connected = false;
        self.status_message = "Disconnected".to_owned();
    }

    /// The enumerated port names, as last refreshed.
    pub fn ports(&self) -> (r: &Vec<String>)
        ensures
            r.deep_view() == self@.ports,
    {
        &self.available_ports
    }

    /// The port the user picked, if any.
    pub fn selected_port(&self) -> (r: &Option<String>)
        ensures
            r.deep_view() == self@.selected,
    {
        &self.selected_port
    }

    /// The dialed-in baud rate.
    pub fn baud(&self) -> (r: u32)
        ensures
            r == self@.baud,
    {
        self.baud_rate
    }

    /// The current contents of the send field.
    pub fn send_text(&self) -> (r: &String)
        ensures
            r@ == self@.send,
    {
        &self.send_buffer
    }

    /// Whether the session believes it is connected.
    pub fn is_connected(&self) -> (r: bool)
        ensures
            r == self@.connected,
    {
        self.connected
    }

    /// The status line shown to the user.
    pub fn status(&self) -> (r: &String)
        ensures
            r@ == self@.status,
    {
        &self.status_message
    }

    /// Whether the foreground holds a reader's join handle — that is,
    /// whether a reader execution exists.
    pub fn reader_attached(&self) -> (r: bool)
        ensures
            r == self@.reader_attached,
    {
        self.reader_attached
    }

    /// Whether the foreground holds a reference to the open device.
    pub fn writer_attached(&self) -> (r: bool)
        ensures
            r == self@.writer_attached,
    {
        self.writer_attached
    }
}

/// A fresh session is well formed, and every transition keeps it so:
/// the connected flag, the reader handle and the device reference
/// move together, and the baud rate stays in range.
pub proof fn lemma_transitions_preserve_wf(
    s: SessionState,
    ports: Seq<Seq<char>>,
    scan: Option<Seq<Seq<char>>>,
    name: Seq<char>,
    baud: u32,
    text: Seq<char>,
    err: Seq<char>,
)
    requires
        s.wf(),
    ensures
        initial_session().wf(),
        ports_replaced(s, ports).wf(),
        scan_applied(s, scan).wf(),
        port_selected(s, name).wf(),
        baud_chosen(s, baud).wf(),
        send_text_edited(s, text).wf(),
        connect_accepted(s).wf(),
        connect_rejected(s, err).wf(),
        input_cleared(s).wf(),
        disconnected(s).wf(),
{
}

/// After a successful connect exactly one reader execution exists —
/// the session holds its join handle — and after the following
/// disconnect none does.
pub proof fn lemma_reader_lifecycle(s: SessionState)
    requires
        s.wf(),
        !s.connected,
    ensures
        connect_accepted(s).reader_attached,
        !disconnected(connect_accepted(s)).reader_attached,
{
}

/// Disconnecting twice in succession ends in the same state as
/// disconnecting once, on the session and on the link alike; in
/// particular the session ends disconnected either way.
pub proof fn lemma_disconnect_idempotent(s: SessionState, l: LinkState)
    ensures
        disconnected(disconnected(s)) == disconnected(s),
        stop_signalled(stop_signalled(l)) == stop_signalled(l),
        !disconnected(s).connected,
{
}

} // verus!
