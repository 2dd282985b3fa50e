//! The life of one connection, as its supervisor sees it: from the handshake
//! to the moment when both tables have forgotten the session.

use crate::ident::{hyphenated, is_minted_form, random_uuid, uuid_text};
use crate::manager::{Tables, WebsocketManager};
use tokio::sync::mpsc::UnboundedSender;
use tokio_tungstenite::tungstenite::Message;
use vstd::prelude::*;

verus! {

/// The local port on which the listener accepts connections.
pub const WEBSOCKET_PORT: u16 = 38012;

/// Milliseconds between the entry of a session in the table and the frame
/// that tells the peer its identifier.
pub const GREETING_DELAY_MS: u64 = 1000;

/// Where a connection stands.
#[derive(Clone, Copy, Debug, PartialEq, Eq, Structural)]
pub enum ConnectionState {
    /// The transport is there, the handshake is not done.
    Connecting,
    /// The session is entered in the table and its three tasks run.
    Open,
    /// One of the three tasks has ended; the tables still hold the session.
    Closing,
    /// The tables hold the session no more. Nothing follows.
    Closed,
}

/// The three tasks that serve an open connection.
#[derive(Clone, Copy, Debug, PartialEq, Eq, Structural)]
pub enum Task {
    /// Writes what the outbound channel yields to the transport.
    Send,
    /// Reads from the transport.
    Receive,
    /// Probes the outbound channel at a fixed period.
    Heartbeat,
}

/// The abstract state of a [`Connection`].
pub struct Session {
    pub state: ConnectionState,
    /// The identifier of the session, once one was minted.
    pub client_id: Option<u128>,
    /// The task whose end closed the connection, if it was closed that way.
    pub cause: Option<Task>,
}

impl Session {
    pub open spec fn fresh() -> Session {
        Session { state: ConnectionState::Connecting, client_id: None, cause: None }
    }

    /// The connection is in a state in which the table holds its session.
    pub open spec fn holds_entry(self) -> bool {
        self.state is Open || self.state is Closing
    }

    /// The session table and the connection say the same: the table has an
    /// entry under the connection's identifier exactly while the connection
    /// is open or closing, and a connection without identifier is neither.
    pub open spec fn agrees(self, tables: Tables) -> bool {
        match self.client_id {
            None => !self.holds_entry(),
            Some(id) => !(self.state is Connecting) && (self.holds_entry() <==> tables.has_session(
                id,
            )),
        }
    }
}

/// Unless a connection is just closing, the session table has an entry under
/// its identifier exactly when the connection is open; for a closed
/// connection it has none.
pub proof fn law_entry_exactly_while_open(session: Session, tables: Tables)
    requires
        session.agrees(tables),
        session.client_id is Some,
        !(session.state is Closing),
    ensures
        tables.has_session(session.client_id->0) <==> session.state is Open,
        session.state is Closed ==> !tables.has_session(session.client_id->0),
{
}

/// The agreement of a connection with the session table holds whatever is
/// done to the table under another identifier.
pub proof fn law_agreement_survives_other_sessions(
    session: Session,
    tables: Tables,
    other: u128,
    sender: UnboundedSender<Message>,
)
    requires
        session.agrees(tables),
        session.client_id != Some(other),
    ensures
        session.agrees(tables.register(other, sender)),
        session.agrees(tables.unregister(other)),
        session.agrees(tables.teardown(other)),
{
}

/// The agreement of a connection with the session table holds whatever is
/// sent, refused, bound, unbound or routed, under any identifier.
pub proof fn law_agreement_survives_traffic(
    session: Session,
    tables: Tables,
    id: u128,
    text: Seq<char>,
    input: UnboundedSender<String>,
)
    requires
        session.agrees(tables),
    ensures
        tables.has_session(id) ==> session.agrees(tables.deliver(id, text)),
        tables.has_session(id) ==> session.agrees(tables.refuse(id, text)),
        session.agrees(tables.bind(id, input)),
        session.agrees(tables.unbind(id)),
        session.agrees(tables.route(id, text)),
{
}

/// One connection, as its supervisor holds it.
#[derive(Debug)]
pub struct Connection {
    state: ConnectionState,
    client_id: Option<u128>,
    cause: Option<Task>,
}

impl View for Connection {
    type V = Session;

    closed spec fn view(&self) -> Session {
        Session { state: self.state, client_id: self.client_id, cause: self.cause }
    }
}

impl Connection {
    /// A connection whose handshake is still to come.
    pub fn new() -> (c: Self)
        ensures
            c@ == Session::fresh(),
    {
        Connection { state: ConnectionState::Connecting, client_id: None, cause: None }
    }

    pub fn state(&self) -> (s: ConnectionState)
        ensures
            s == self@.state,
    {
        self.state
    }

    pub fn client_id(&self) -> (id: Option<u128>)
        ensures
            id == self@.client_id,
    {
        self.client_id
    }

    pub fn cause(&self) -> (t: Option<Task>)
        ensures
            t == self@.cause,
    {
        self.cause
    }

    /// The handshake failed: a connecting connection is closed without ever
    /// having had a session. In any other state nothing changes.
    pub fn handshake_failed(&mut self)
        ensures
            old(self)@.state is Connecting ==> final(self)@ == (Session {
                state: ConnectionState::Closed,
                ..old(self)@
            }),
            !(old(self)@.state is Connecting) ==> final(self)@ == old(self)@,
    {
        if let ConnectionState::Connecting = self.state {
            self.state = ConnectionState::Closed;
        }
    }

    /// The handshake succeeded: mints an identifier, enters the session with
    /// its outbound channel, and opens the connection. In any state but
    /// `Connecting` nothing changes and nothing is returned.
    pub fn open(&mut self, manager: &mut WebsocketManager, sender: UnboundedSender<Message>) -> (r:
        Option<u128>)
        ensures
            old(self)@.state is Connecting ==> r is Some && is_minted_form(r->0) && final(self)@
                == (Session { state: ConnectionState::Open, client_id: r, ..old(self)@ })
                && final(manager)@ == old(manager)@.register(r->0, sender),
            !(old(self)@.state is Connecting) ==> r is None && final(self)@ == old(self)@
                && final(manager)@ == old(manager)@,
            old(self)@.agrees(old(manager)@) ==> final(self)@.agrees(final(manager)@),
    {
        if let ConnectionState::Connecting = self.state {
            let id = random_uuid();
            manager.register(id, sender);
            self.client_id = Some(id);
            self.state = ConnectionState::Open;
            Some(id)
        } else {
            None
        }
    }

    /// Sends the peer the identifier of its session, as the first payload of
    /// the session, and says whether the connection is still open.
    ///
    /// Where the session's channel does not take the greeting, the session is
    /// torn down and the connection is closed. In any state but `Open`
    /// nothing changes.
    pub fn greet(&mut self, manager: &mut WebsocketManager) -> (greeted: bool)
        ensures
            !(old(self)@.state is Open && old(self)@.client_id is Some) ==> !greeted && final(self)@
                == old(self)@ && final(manager)@ == old(manager)@,
            old(self)@.state is Open && old(self)@.client_id is Some && greeted ==> final(self)@
                == old(self)@ && final(manager)@ == old(manager)@.deliver(
                old(self)@.client_id->0,
                hyphenated(old(self)@.client_id->0),
            ),
            old(self)@.state is Open && old(self)@.client_id is Some && !greeted ==> final(self)@
                == (Session { state: ConnectionState::Closed, ..old(self)@ }) && final(manager)@
                == old(manager)@.teardown(old(self)@.client_id->0),
            old(self)@.agrees(old(manager)@) ==> final(self)@.agrees(final(manager)@),
    {
        match (self.state, self.client_id) {
            (ConnectionState::Open, Some(id)) => {
                if manager.send_message(id, uuid_text(id)).is_ok() {
                    true
                } else {
                    assert(manager@.teardown(id).sessions =~= old(manager)@.teardown(id).sessions);
                    manager.teardown(id);
                    self.state = ConnectionState::Closed;
                    false
                }
            },
            _ => false,
        }
    }

    /// One of the three tasks has ended: an open connection starts to close,
    /// and keeps the task as the cause. In any other state nothing changes,
    /// so the first task to end is the one that counts.
    pub fn task_ended(&mut self, task: Task)
        ensures
            old(self)@.state is Open ==> final(self)@ == (Session {
                state: ConnectionState::Closing,
                cause: Some(task),
                ..old(self)@
            }),
            !(old(self)@.state is Open) ==> final(self)@ == old(self)@,
            forall|tables: Tables| old(self)@.agrees(tables) ==> final(self)@.agrees(tables),
    {
        if let ConnectionState::Open = self.state {
            self.state = ConnectionState::Closing;
            self.cause = Some(task);
        }
    }

    /// Ends a closing connection: both tables forget the session, and the
    /// connection is closed. In any other state nothing changes, so the
    /// tables are cleaned once for each connection.
    pub fn close(&mut self, manager: &mut WebsocketManager)
        ensures
            old(self)@.state is Closing && old(self)@.client_id is Some ==> final(self)@ == (Session {
                state: ConnectionState::Closed,
                ..old(self)@
            }) && final(manager)@ == old(manager)@.teardown(old(self)@.client_id->0),
            !(old(self)@.state is Closing && old(self)@.client_id is Some) ==> final(self)@ == old(
                self,
            )@ && final(manager)@ == old(manager)@,
            old(self)@.agrees(old(manager)@) ==> final(self)@.agrees(final(manager)@),
    {
        match (self.state, self.client_id) {
            (ConnectionState::Closing, Some(id)) => {
                manager.teardown(id);
                self.state = ConnectionState::Closed;
            },
            _ => {},
        }
    }
}

} // verus!
