//! The two shared tables of the multiplexer: the open sessions with their
//! outbound channels, and the terminal input bindings.

use crate::channel::{offer, text_frame};
use std::collections::HashMap;
use tokio::sync::mpsc::UnboundedSender;
use tokio_tungstenite::tungstenite::Message;
use vstd::prelude::*;

verus! {

/// One entry of the session table.
pub struct Outbox {
    /// The producer handle that was registered for the session.
    pub sender: UnboundedSender<Message>,
    /// The text payloads that the session's channel has taken through the
    /// table since the entry was made, oldest first.
    pub sent: Seq<Seq<char>>,
    /// The text payloads that were offered to the session's channel through
    /// the table since the entry was made and that the channel did not take,
    /// oldest first. They are lost: nothing offers them again.
    pub refused: Seq<Seq<char>>,
}

/// One entry of the terminal input table.
pub struct Binding {
    /// The producer handle that feeds the attached shell.
    pub sender: UnboundedSender<String>,
    /// The keystrokes that the binding's channel has taken since it was
    /// made, oldest first.
    pub routed: Seq<Seq<char>>,
}

/// The abstract state of a [`WebsocketManager`].
pub struct Tables {
    pub sessions: Map<u128, Outbox>,
    pub bindings: Map<u128, Binding>,
}

impl Tables {
    pub open spec fn empty() -> Tables {
        Tables { sessions: Map::empty(), bindings: Map::empty() }
    }

    pub open spec fn has_session(self, id: u128) -> bool {
        self.sessions.contains_key(id)
    }

    pub open spec fn is_bound(self, id: u128) -> bool {
        self.bindings.contains_key(id)
    }

    /// The payloads taken so far for `id`; empty where there is no session.
    pub open spec fn sent(self, id: u128) -> Seq<Seq<char>> {
        if self.has_session(id) {
            self.sessions[id].sent
        } else {
            Seq::empty()
        }
    }

    /// The payloads that the channel of `id` has refused so far; empty where
    /// there is no session.
    pub open spec fn refused(self, id: u128) -> Seq<Seq<char>> {
        if self.has_session(id) {
            self.sessions[id].refused
        } else {
            Seq::empty()
        }
    }

    /// The keystrokes taken so far by the binding of `id`; empty where there
    /// is none.
    pub open spec fn routed(self, id: u128) -> Seq<Seq<char>> {
        if self.is_bound(id) {
            self.bindings[id].routed
        } else {
            Seq::empty()
        }
    }

    pub open spec fn register(self, id: u128, sender: UnboundedSender<Message>) -> Tables {
        Tables {
            sessions: self.sessions.insert(
                id,
                Outbox { sender, sent: Seq::empty(), refused: Seq::empty() },
            ),
            ..self
        }
    }

    pub open spec fn unregister(self, id: u128) -> Tables {
        Tables { sessions: self.sessions.remove(id), ..self }
    }

    /// The state after the channel of session `id` took `text`.
    pub open spec fn deliver(self, id: u128, text: Seq<char>) -> Tables
        recommends
            self.has_session(id),
    {
        Tables {
            sessions: self.sessions.insert(
                id,
                Outbox { sent: self.sessions[id].sent.push(text), ..self.sessions[id] },
            ),
            ..self
        }
    }

    /// The state after `text` was offered to the channel of session `id` and
    /// the channel did not take it.
    pub open spec fn refuse(self, id: u128, text: Seq<char>) -> Tables
        recommends
            self.has_session(id),
    {
        Tables {
            sessions: self.sessions.insert(
                id,
                Outbox { refused: self.sessions[id].refused.push(text), ..self.sessions[id] },
            ),
            ..self
        }
    }

    /// The state after `text` was offered to the channel of session `id`:
    /// the payload is in the history of what the channel took, or in the
    /// history of what it refused.
    pub open spec fn offer(self, id: u128, text: Seq<char>, taken: bool) -> Tables
        recommends
            self.has_session(id),
    {
        if taken {
            self.deliver(id, text)
        } else {
            self.refuse(id, text)
        }
    }

    /// The state after the channel of session `id` took each of `texts`, one
    /// after the other.
    pub open spec fn deliver_all(self, id: u128, texts: Seq<Seq<char>>) -> Tables
        recommends
            self.has_session(id),
        decreases texts.len(),
    {
        if texts.len() == 0 {
            self
        } else {
            self.deliver_all(id, texts.drop_last()).deliver(id, texts.last())
        }
    }

    pub open spec fn bind(self, id: u128, sender: UnboundedSender<String>) -> Tables {
        Tables {
            bindings: self.bindings.insert(id, Binding { sender, routed: Seq::empty() }),
            ..self
        }
    }

    pub open spec fn unbind(self, id: u128) -> Tables {
        Tables { bindings: self.bindings.remove(id), ..self }
    }

    /// The state after the binding of `id` took the keystrokes `text`.
    pub open spec fn route(self, id: u128, text: Seq<char>) -> Tables
        recommends
            self.is_bound(id),
    {
        Tables {
            bindings: self.bindings.insert(
                id,
                Binding {
                    sender: self.bindings[id].sender,
                    routed: self.bindings[id].routed.push(text),
                },
            ),
            ..self
        }
    }

    /// The state after a connection is torn down: neither table holds `id`.
    pub open spec fn teardown(self, id: u128) -> Tables {
        self.unregister(id).unbind(id)
    }
}

/// Payloads reach a session's channel in the order in which they were sent:
/// after a run of sends that the channel took, the history of what it took is
/// what it was, followed by the payloads of the run in their order. The
/// session keeps its channel and its history of refused payloads, and no
/// other session and no binding is touched.
pub proof fn law_sends_keep_their_order(tables: Tables, id: u128, texts: Seq<Seq<char>>)
    requires
        tables.has_session(id),
    ensures
        tables.deliver_all(id, texts).has_session(id),
        tables.deliver_all(id, texts).sent(id) == tables.sent(id) + texts,
        tables.deliver_all(id, texts).refused(id) == tables.refused(id),
        tables.deliver_all(id, texts).sessions[id].sender == tables.sessions[id].sender,
        tables.deliver_all(id, texts).sessions.remove(id) == tables.sessions.remove(id),
        tables.deliver_all(id, texts).bindings == tables.bindings,
    decreases texts.len(),
{
    if texts.len() > 0 {
        law_sends_keep_their_order(tables, id, texts.drop_last());
    }
}

/// Sends to two different sessions do not disturb each other: either order
/// leaves the same tables.
pub proof fn law_sessions_are_independent(
    tables: Tables,
    a: u128,
    b: u128,
    to_a: Seq<char>,
    to_b: Seq<char>,
)
    requires
        tables.has_session(a),
        tables.has_session(b),
        a != b,
    ensures
        tables.deliver(a, to_a).deliver(b, to_b) == tables.deliver(b, to_b).deliver(a, to_a),
{
    assert(tables.deliver(a, to_a).deliver(b, to_b).sessions =~= tables.deliver(b, to_b).deliver(
        a,
        to_a,
    ).sessions);
}

/// A session has one terminal binding at most: binding a second channel
/// leaves the tables as if the first had never been bound, and what is
/// routed afterwards is counted for the second alone.
pub proof fn law_binding_is_exclusive(
    tables: Tables,
    id: u128,
    first: UnboundedSender<String>,
    second: UnboundedSender<String>,
    text: Seq<char>,
)
    ensures
        tables.bind(id, first).bind(id, second) == tables.bind(id, second),
        tables.bind(id, first).bind(id, second).route(id, text).bindings[id] == (Binding {
            sender: second,
            routed: seq![text],
        }),
{
    assert(tables.bind(id, first).bind(id, second).bindings =~= tables.bind(id, second).bindings);
}

/// Why keystrokes did not reach a shell.
#[derive(Clone, Copy, Debug, PartialEq, Eq, Structural)]
pub enum RouteError {
    /// No terminal is attached to the session.
    NotBound,
    /// A terminal is attached, but its input channel no longer takes items.
    ChannelClosed,
}

/// The session table and the terminal input table, behind one value. Callers
/// that share it put it behind one lock and hold the lock for one call.
pub struct WebsocketManager {
    clients: HashMap<u128, UnboundedSender<Message>>,
    terminal_inputs: HashMap<u128, UnboundedSender<String>>,
    sent: Ghost<Map<u128, Seq<Seq<char>>>>,
    refused: Ghost<Map<u128, Seq<Seq<char>>>>,
    routed: Ghost<Map<u128, Seq<Seq<char>>>>,
}

impl View for WebsocketManager {
    type V = Tables;

    closed spec fn view(&self) -> Tables {
        Tables {
            sessions: Map::new(
                |id: u128| self.clients@.contains_key(id),
                |id: u128|
                    Outbox {
                        sender: self.clients@[id],
                        sent: self.sent@[id],
                        refused: self.refused@[id],
                    },
            ),
            bindings: Map::new(
                |id: u128| self.terminal_inputs@.contains_key(id),
                |id: u128| Binding { sender: self.terminal_inputs@[id], routed: self.routed@[id] },
            ),
        }
    }
}

impl WebsocketManager {
    /// A manager with no session and no binding.
    pub fn new() -> (m: Self)
        ensures
            m@ == Tables::empty(),
    {
        let m = WebsocketManager {
            clients: HashMap::new(),
            terminal_inputs: HashMap::new(),
            sent: Ghost(Map::empty()),
            refused: Ghost(Map::empty()),
            routed: Ghost(Map::empty()),
        };
        assert(m@.sessions =~= Map::empty());
        assert(m@.bindings =~= Map::empty());
        m
    }

    /// Enters a session with its outbound channel. An entry under the same
    /// identifier is replaced, and its histories start anew.
    pub fn register(&mut self, client_id: u128, sender: UnboundedSender<Message>)
        ensures
            final(self)@ == old(self)@.register(client_id, sender),
    {
        self.clients.insert(client_id, sender);
        self.sent = Ghost(self.sent@.insert(client_id, Seq::empty()));
        self.refused = Ghost(self.refused@.insert(client_id, Seq::empty()));
        assert(self@.sessions =~= old(self)@.register(client_id, sender).sessions);
    }

    /// Removes a session. Removing one that is not there changes nothing.
    pub fn unregister(&mut self, client_id: u128)
        ensures
            final(self)@ == old(self)@.unregister(client_id),
    {
        self.clients.remove(&client_id);
        assert(self@.sessions =~= old(self)@.unregister(client_id).sessions);
    }

    /// Whether a session is entered under `client_id`.
    pub fn is_registered(&self, client_id: u128) -> (b: bool)
        ensures
            b == self@.has_session(client_id),
    {
        self.clients.contains_key(&client_id)
    }

    /// Offers a text payload to the outbound channel of a session.
    ///
    /// Fails with `client not found` where no session is entered under
    /// `client_id`; then nothing is offered and nothing changes. Where a
    /// session is entered, the payload is offered to its channel once: it
    /// joins the history of what the channel took, and the call succeeds, or
    /// it joins the history of what the channel refused, and the call fails
    /// with the channel's own refusal. Nothing else changes either way.
    pub fn send_message(&mut self, client_id: u128, message: String) -> (r: Result<(), String>)
        ensures
            !old(self)@.has_session(client_id) ==> r is Err && r->Err_0@ == "client not found"@
                && final(self)@ == old(self)@,
            old(self)@.has_session(client_id) && r is Err ==> r->Err_0@ == "channel closed"@,
            old(self)@.has_session(client_id) ==> final(self)@ == old(self)@.offer(
                client_id,
                message@,
                r is Ok,
            ),
    {
        let ghost text = message@;
        match self.clients.get(&client_id) {
            Some(sender) => {
                let outcome = offer(sender, text_frame(message));
                if outcome.is_ok() {
                    self.sent = Ghost(self.sent@.insert(client_id, self.sent@[client_id].push(text)));
                    assert(self@.sessions =~= old(self)@.deliver(client_id, text).sessions);
                } else {
                    self.refused = Ghost(
                        self.refused@.insert(client_id, self.refused@[client_id].push(text)),
                    );
                    assert(self@.sessions =~= old(self)@.refuse(client_id, text).sessions);
                }
                outcome
            },
            None => Err("client not found".to_string()),
        }
    }

    /// Binds the input channel of an attached shell to a session. A binding
    /// under the same identifier is replaced, never kept beside the new one.
    pub fn set_terminal_input(&mut self, client_id: u128, sender: UnboundedSender<String>)
        ensures
            final(self)@ == old(self)@.bind(client_id, sender),
    {
        self.terminal_inputs.insert(client_id, sender);
        self.routed = Ghost(self.routed@.insert(client_id, Seq::empty()));
        assert(self@.bindings =~= old(self)@.bind(client_id, sender).bindings);
    }

    /// Removes the binding of a session. Removing one that is not there
    /// changes nothing.
    pub fn remove_terminal_input(&mut self, client_id: u128)
        ensures
            final(self)@ == old(self)@.unbind(client_id),
    {
        self.terminal_inputs.remove(&client_id);
        assert(self@.bindings =~= old(self)@.unbind(client_id).bindings);
    }

    /// Whether a terminal is bound to `client_id`.
    pub fn has_terminal_input(&self, client_id: u128) -> (b: bool)
        ensures
            b == self@.is_bound(client_id),
    {
        self.terminal_inputs.contains_key(&client_id)
    }

    /// Hands keystrokes to the shell that is attached to a session.
    ///
    /// Fails with `NotBound` where no terminal is bound to `client_id`, and
    /// with `ChannelClosed` where the binding's channel no longer takes items.
    /// A failure changes nothing: the keystrokes are dropped, not queued.
    pub fn route(&mut self, client_id: u128, text: String) -> (r: Result<(), RouteError>)
        ensures
            !old(self)@.is_bound(client_id) ==> r == Err::<(), RouteError>(RouteError::NotBound),
            old(self)@.is_bound(client_id) && r is Err ==> r == Err::<(), RouteError>(
                RouteError::ChannelClosed,
            ),
            r is Ok ==> final(self)@ == old(self)@.route(client_id, text@),
            r is Err ==> final(self)@ == old(self)@,
    {
        let ghost keys = text@;
        match self.terminal_inputs.get(&client_id) {
            Some(sender) => {
                if offer(sender, text).is_ok() {
                    self.routed = Ghost(
                        self.routed@.insert(client_id, self.routed@[client_id].push(keys)),
                    );
                    assert(self@.bindings =~= old(self)@.route(client_id, keys).bindings);
                    Ok(())
                } else {
                    Err(RouteError::ChannelClosed)
                }
            },
            None => Err(RouteError::NotBound),
        }
    }

    /// Forgets a session altogether: its entry and its terminal binding.
    pub fn teardown(&mut self, client_id: u128)
        ensures
            final(self)@ == old(self)@.teardown(client_id),
    {
        self.unregister(client_id);
        self.remove_terminal_input(client_id);
    }
}

} // verus!
