//! The session table: which shell sessions exist, what state each is in, and
//! what the manager decides on every request and on every output chunk.
//!
//! The operating-system side (allocating a PTY, spawning the shell, moving
//! bytes) is done by the host; it reports each outcome here and acts on the
//! decision that comes back.
use std::collections::HashMap;
use vstd::prelude::*;
use vstd::utf8::{decode_utf8, valid_utf8};

verus! {

broadcast use vstd::std_specs::hash::group_hash_axioms;

/// Size of a pseudo-terminal in character cells.
#[derive(Clone, Copy, PartialEq, Eq, Structural, Debug)]
pub struct Geometry {
    pub rows: u16,
    pub cols: u16,
}

/// Lifecycle state of a session that is still in the table.
#[derive(Clone, Copy, PartialEq, Eq, Structural, Debug)]
pub enum SessionStatus {
    /// The shell is alive; writes and resizes are accepted.
    Running,
    /// The shell ended on its own; the entry waits for removal.
    Exited,
}

/// Errors reported to the caller of a manager operation.
#[derive(Clone, PartialEq, Eq, Debug)]
pub enum SessionError {
    /// The operating system refused to allocate the PTY or start the shell.
    SpawnError(String),
    /// No session has this identifier (never created, killed, or removed).
    NotFound,
    /// The shell of this session has already exited.
    SessionClosed,
    /// The operating system reported an identifier that is already tracked.
    DuplicateId,
}

impl SessionError {
    /// Text shown to the user for this error.
    pub open spec fn spec_message(&self) -> Seq<char> {
        match self {
            SessionError::SpawnError(msg) => SPAWN_FAILED@ + msg@,
            SessionError::NotFound => NOT_FOUND@,
            SessionError::SessionClosed => CLOSED@,
            SessionError::DuplicateId => DUPLICATE@,
        }
    }

    /// Text shown to the user for this error.
    pub fn message(&self) -> (r: String)
        ensures
            r@ == self.spec_message(),
    {
        match self {
            SessionError::SpawnError(msg) => SPAWN_FAILED.to_owned().concat(msg.as_str()),
            SessionError::NotFound => NOT_FOUND.to_owned(),
            SessionError::SessionClosed => CLOSED.to_owned(),
            SessionError::DuplicateId => DUPLICATE.to_owned(),
        }
    }
}

/// Prefix of the message of a failed spawn, before the system's own text.
pub const SPAWN_FAILED: &'static str = "Failed to spawn shell: ";

/// Message for an unknown session.
pub const NOT_FOUND: &'static str = "Terminal session not found";

/// Message for a session whose shell has exited.
pub const CLOSED: &'static str = "Terminal session has ended";

/// Message for a process identifier that is already tracked.
pub const DUPLICATE: &'static str = "Terminal session already registered";

/// Size a session starts with when the caller gives none.
pub const DEFAULT_ROWS: u16 = 24;

/// Size a session starts with when the caller gives none.
pub const DEFAULT_COLS: u16 = 80;

impl Geometry {
    /// The customary 24 by 80 terminal.
    pub fn standard() -> (r: Geometry)
        ensures
            r.rows == DEFAULT_ROWS && r.cols == DEFAULT_COLS,
    {
        Geometry { rows: DEFAULT_ROWS, cols: DEFAULT_COLS }
    }
}

/// One tracked session.
#[derive(Clone, Copy)]
pub struct TerminalSession {
    pub geometry: Geometry,
    pub status: SessionStatus,
    /// Every byte forwarded to the shell's input, in order.
    pub sent: Ghost<Seq<u8>>,
}

/// The table of all sessions, keyed by the shell's process identifier.
pub struct TerminalState {
    sessions: HashMap<u32, TerminalSession>,
}

impl View for TerminalState {
    type V = Map<u32, TerminalSession>;

    closed spec fn view(&self) -> Map<u32, TerminalSession> {
        self.sessions@
    }
}

/// The entry a freshly spawned shell gets.
pub open spec fn fresh_session(geometry: Geometry) -> TerminalSession {
    TerminalSession { geometry, status: SessionStatus::Running, sent: Ghost(Seq::empty()) }
}

impl Default for TerminalState {
    fn default() -> (r: TerminalState)
        ensures
            r@ == Map::<u32, TerminalSession>::empty(),
    {
        TerminalState::new()
    }
}

impl TerminalState {
    /// An empty table.
    pub fn new() -> (r: TerminalState)
        ensures
            r@ == Map::<u32, TerminalSession>::empty(),
    {
        TerminalState { sessions: HashMap::new() }
    }

    /// Number of sessions in the table.
    pub fn len(&self) -> (r: usize)
        ensures
            r == self@.len(),
    {
        self.sessions.len()
    }

    /// Whether a session with this identifier is in the table.
    pub fn contains(&self, id: u32) -> (r: bool)
        ensures
            r == self@.contains_key(id),
    {
        self.sessions.contains_key(&id)
    }

    /// The recorded state of one session.
    pub fn session(&self, id: u32) -> (r: Option<TerminalSession>)
        ensures
            r == (if self@.contains_key(id) { Some(self@[id]) } else { None::<TerminalSession> }),
    {
        match self.sessions.get(&id) {
            Some(s) => Some(*s),
            None => None,
        }
    }
}


impl TerminalState {
    /// Records the outcome of spawning a shell with the given geometry.
    ///
    /// `spawned` is the spawned process's identifier, or the operating
    /// system's error text. A failure leaves the table untouched.
    pub fn create_session(&mut self, spawned: Result<u32, String>, geometry: Geometry) -> (r:
        Result<u32, SessionError>)
        ensures
            r == create_result(old(self)@, spawned),
            final(self)@ == after_create(old(self)@, spawned, geometry),
    {
        match spawned {
            Err(msg) => Err(SessionError::SpawnError(msg)),
            Ok(id) => {
                if self.sessions.contains_key(&id) {
                    Err(SessionError::DuplicateId)
                } else {
                    let entry = TerminalSession {
                        geometry,
                        status: SessionStatus::Running,
                        sent: Ghost(Seq::empty()),
                    };
                    self.sessions.insert(id, entry);
                    Ok(id)
                }
            },
        }
    }

    /// Accepts `data` for the input of session `id`.
    ///
    /// On success the bytes are appended, verbatim, to what the session has
    /// been sent, and the caller forwards them to the shell.
    pub fn write(&mut self, id: u32, data: &Vec<u8>) -> (r: Result<(), SessionError>)
        ensures
            r == gate(old(self)@, id),
            final(self)@ == after_write(old(self)@, id, data@),
    {
        match self.sessions.get(&id) {
            None => Err(SessionError::NotFound),
            Some(s) => {
                if s.status == SessionStatus::Exited {
                    Err(SessionError::SessionClosed)
                } else {
                    let entry = TerminalSession {
                        geometry: s.geometry,
                        status: s.status,
                        sent: Ghost(s.sent@ + data@),
                    };
                    self.sessions.insert(id, entry);
                    Ok(())
                }
            },
        }
    }

    /// Records a new geometry for session `id`; the caller then issues the
    /// operating system's resize call.
    pub fn resize(&mut self, id: u32, rows: u16, cols: u16) -> (r: Result<(), SessionError>)
        ensures
            r == gate(old(self)@, id),
            final(self)@ == after_resize(old(self)@, id, rows, cols),
    {
        match self.sessions.get(&id) {
            None => Err(SessionError::NotFound),
            Some(s) => {
                if s.status == SessionStatus::Exited {
                    Err(SessionError::SessionClosed)
                } else {
                    let entry = TerminalSession {
                        geometry: Geometry { rows, cols },
                        status: s.status,
                        sent: s.sent,
                    };
                    self.sessions.insert(id, entry);
                    Ok(())
                }
            },
        }
    }

    /// Removes session `id`; the caller then terminates its process.
    ///
    /// A running session yields its terminal `Killed` event; one whose shell
    /// already ended has had its `Ended` event and yields none.
    pub fn kill(&mut self, id: u32) -> (r: Result<Option<TerminalEvent>, SessionError>)
        ensures
            r == kill_result(old(self)@, id),
            final(self)@ == after_kill(old(self)@, id),
    {
        match self.sessions.remove(&id) {
            None => Err(SessionError::NotFound),
            Some(s) => {
                if s.status == SessionStatus::Running {
                    Ok(Some(TerminalEvent::Killed { id }))
                } else {
                    Ok(None)
                }
            },
        }
    }

    /// Decides what the output pump of session `id` does with what it read.
    pub fn pump_step(&mut self, id: u32, input: PumpInput) -> (r: PumpAction)
        ensures
            pump_outcome(old(self)@, id, input, final(self)@, r),
    {
        if !self.sessions.contains_key(&id) {
            return PumpAction { event: None, keep_running: false };
        }
        match input {
            PumpInput::Chunk(bytes) => {
                if bytes.len() == 0 {
                    PumpAction { event: None, keep_running: true }
                } else {
                    let event = match decode_text(bytes) {
                        Some(data) => TerminalEvent::Output { id, data },
                        None => TerminalEvent::DecodeError { id },
                    };
                    PumpAction { event: Some(event), keep_running: true }
                }
            },
            PumpInput::Closed => {
                let s = *self.sessions.get(&id).unwrap();
                if s.status == SessionStatus::Running {
                    let entry = TerminalSession {
                        geometry: s.geometry,
                        status: SessionStatus::Exited,
                        sent: s.sent,
                    };
                    self.sessions.insert(id, entry);
                    PumpAction { event: Some(TerminalEvent::Ended { id }), keep_running: false }
                } else {
                    PumpAction { event: None, keep_running: false }
                }
            },
        }
    }
}

/// Whether session `id` accepts input and resizes: it must exist and be running.
pub open spec fn gate(m: Map<u32, TerminalSession>, id: u32) -> Result<(), SessionError> {
    if !m.contains_key(id) {
        Err(SessionError::NotFound)
    } else if m[id].status == SessionStatus::Exited {
        Err(SessionError::SessionClosed)
    } else {
        Ok(())
    }
}

/// What `create_session` returns on table `m` for a spawn outcome.
pub open spec fn create_result(m: Map<u32, TerminalSession>, spawned: Result<u32, String>) -> Result<
    u32,
    SessionError,
> {
    match spawned {
        Err(msg) => Err(SessionError::SpawnError(msg)),
        Ok(id) => if m.contains_key(id) {
            Err(SessionError::DuplicateId)
        } else {
            Ok(id)
        },
    }
}

/// The table after `create_session`: the new session is registered only on success.
pub open spec fn after_create(
    m: Map<u32, TerminalSession>,
    spawned: Result<u32, String>,
    geometry: Geometry,
) -> Map<u32, TerminalSession> {
    match create_result(m, spawned) {
        Ok(id) => m.insert(id, fresh_session(geometry)),
        Err(_) => m,
    }
}

/// The table after `write`: an accepted payload is appended to what was sent.
pub open spec fn after_write(m: Map<u32, TerminalSession>, id: u32, data: Seq<u8>) -> Map<
    u32,
    TerminalSession,
> {
    if gate(m, id) is Ok {
        m.insert(id, TerminalSession { sent: Ghost(m[id].sent@ + data), ..m[id] })
    } else {
        m
    }
}

/// The table after `resize`: an accepted geometry replaces the recorded one.
pub open spec fn after_resize(m: Map<u32, TerminalSession>, id: u32, rows: u16, cols: u16) -> Map<
    u32,
    TerminalSession,
> {
    if gate(m, id) is Ok {
        m.insert(id, TerminalSession { geometry: Geometry { rows, cols }, ..m[id] })
    } else {
        m
    }
}

/// What `kill` returns on table `m`.
pub open spec fn kill_result(m: Map<u32, TerminalSession>, id: u32) -> Result<
    Option<TerminalEvent>,
    SessionError,
> {
    if !m.contains_key(id) {
        Err(SessionError::NotFound)
    } else if m[id].status == SessionStatus::Running {
        Ok(Some(TerminalEvent::Killed { id }))
    } else {
        Ok(None)
    }
}

/// The table after `kill`: the session is gone.
pub open spec fn after_kill(m: Map<u32, TerminalSession>, id: u32) -> Map<u32, TerminalSession> {
    m.remove(id)
}

/// What a session's output pump hands to the manager.
pub enum PumpInput {
    /// Bytes read from the PTY, as they came.
    Chunk(Vec<u8>),
    /// The output stream reached its end.
    Closed,
}

/// An event for the consumer of the event stream, tagged with its session.
#[derive(Clone, PartialEq, Eq, Debug)]
pub enum TerminalEvent {
    /// A chunk of output, decoded as UTF-8.
    Output { id: u32, data: String },
    /// A chunk of output that is not valid UTF-8; the pump goes on.
    DecodeError { id: u32 },
    /// The shell ended on its own.
    Ended { id: u32 },
    /// The session was killed by a caller.
    Killed { id: u32 },
}

/// The pump's next move: an event to deliver, if any, and whether to read on.
pub struct PumpAction {
    pub event: Option<TerminalEvent>,
    pub keep_running: bool,
}

/// `e` is the event that the non-empty chunk `bytes` of session `id` becomes.
pub open spec fn is_chunk_event(e: TerminalEvent, id: u32, bytes: Seq<u8>) -> bool {
    if valid_utf8(bytes) {
        is_output_of(e, id, decode_utf8(bytes))
    } else {
        e == TerminalEvent::DecodeError { id }
    }
}

/// An output event carrying the given text.
pub open spec fn is_output_of(e: TerminalEvent, id: u32, text: Seq<char>) -> bool {
    match e {
        TerminalEvent::Output { id: i, data } => i == id && data@ == text,
        _ => false,
    }
}

/// The pump step of session `id` on `input`, from table `m` to table `m2`.
pub open spec fn pump_outcome(
    m: Map<u32, TerminalSession>,
    id: u32,
    input: PumpInput,
    m2: Map<u32, TerminalSession>,
    r: PumpAction,
) -> bool {
    if !m.contains_key(id) {
        m2 == m && r.event is None && !r.keep_running
    } else {
        match input {
            PumpInput::Chunk(bytes) => m2 == m && r.keep_running && if bytes@.len() == 0 {
                r.event is None
            } else {
                r.event matches Some(e) && is_chunk_event(e, id, bytes@)
            },
            PumpInput::Closed => !r.keep_running && if m[id].status == SessionStatus::Running {
                m2 == m.insert(id, TerminalSession { status: SessionStatus::Exited, ..m[id] })
                    && r.event == Some(TerminalEvent::Ended { id })
            } else {
                m2 == m && r.event is None
            },
        }
    }
}

/// Relies on `String::from_utf8`: it succeeds exactly on well-formed UTF-8,
/// and the string then holds the decoded characters.
#[verifier::external_body]
fn decode_text(bytes: Vec<u8>) -> (r: Option<String>)
    ensures
        r is Some <==> valid_utf8(bytes@),
        r matches Some(s) ==> s@ == decode_utf8(bytes@),
{
    String::from_utf8(bytes).ok()
}

} // verus!
