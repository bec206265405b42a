//! The listener: serves one connection at a time, from accepting it to
//! closing it.
//!
//! The listener owns no socket. It is told what happened on the socket and
//! says what is to be done next; bytes that were read go through it to the
//! session decoder.

use vstd::prelude::*;

use crate::config::Config;
use crate::controller::ControlMessages;
use crate::session::decode_read;
use crate::session::Decoded;
use crate::session::ReadOutcome;
use crate::session::Session;
use crate::virtual_keyboard_matrix::VirtualKeyaboardMatrixItem;

verus! {

/// Where the listener is in the life of a connection.
#[derive(Clone, Copy, Debug, PartialEq, Eq, Structural)]
pub enum ListenerState {
    /// No connection and no socket that waits for one.
    Listening,
    /// A socket waits for a client.
    Accepting,
    /// A client is connected and its bytes are read.
    Connected,
    /// The connection is over and its socket is being closed.
    Closing,
}

/// What happened on the socket.
#[derive(Clone, Copy, Debug, PartialEq, Eq, Structural)]
pub enum ListenerEvent {
    /// A fresh socket is ready to accept.
    Ready,
    /// A client connected.
    Accepted,
    /// Accepting failed.
    AcceptFailed,
    /// Reading failed, or the client went away.
    ReadFailed,
    /// Nothing arrived within the idle timeout.
    IdleTimeout,
    /// Writing the acknowledgment failed.
    WriteFailed,
    /// The socket is closed.
    Closed,
}

/// What is to be done on the socket next.
#[derive(Clone, Copy, Debug, PartialEq, Eq, Structural)]
pub enum ListenerAction {
    /// Set up a fresh socket with this idle timeout, then report `Ready`.
    Prepare { idle_timeout_secs: u64 },
    /// Wait for a client on this port, then report `Accepted` or
    /// `AcceptFailed`.
    Accept { port: u16 },
    /// Read from the socket and hand the bytes in, or report what went
    /// wrong.
    Read,
    /// Close the socket, then report `Closed`.
    Close,
}

/// The listener as contracts see it: its state and the cursor of the session
/// that it serves.
pub struct ListenerView {
    pub state: ListenerState,
    pub cursor: VirtualKeyaboardMatrixItem,
}

/// The state that follows `state` on `event`. An event that has no meaning
/// in a state leaves it as it is.
pub open spec fn listener_next(state: ListenerState, event: ListenerEvent) -> ListenerState {
    match (state, event) {
        (ListenerState::Listening, ListenerEvent::Ready) => ListenerState::Accepting,
        (ListenerState::Accepting, ListenerEvent::Accepted) => ListenerState::Connected,
        (ListenerState::Accepting, ListenerEvent::AcceptFailed) => ListenerState::Listening,
        (ListenerState::Connected, ListenerEvent::ReadFailed) => ListenerState::Closing,
        (ListenerState::Connected, ListenerEvent::IdleTimeout) => ListenerState::Closing,
        (ListenerState::Connected, ListenerEvent::WriteFailed) => ListenerState::Closing,
        (ListenerState::Closing, ListenerEvent::Closed) => ListenerState::Listening,
        _ => state,
    }
}

/// The listener after `event`: the state moves on, and a client that is
/// accepted finds the cursor on the first key of the grid.
pub open spec fn listener_step(view: ListenerView, event: ListenerEvent) -> ListenerView {
    ListenerView {
        state: listener_next(view.state, event),
        cursor: if view.state == ListenerState::Accepting && event == ListenerEvent::Accepted {
            VirtualKeyaboardMatrixItem::N1
        } else {
            view.cursor
        },
    }
}

/// What is to be done on the socket while the listener is in `state`.
pub open spec fn action_in(config: Config, state: ListenerState) -> ListenerAction {
    match state {
        ListenerState::Listening => ListenerAction::Prepare {
            idle_timeout_secs: config.idle_timeout_secs,
        },
        ListenerState::Accepting => ListenerAction::Accept { port: config.port },
        ListenerState::Connected => ListenerAction::Read,
        ListenerState::Closing => ListenerAction::Close,
    }
}

/// Whether the status indicator is lit in `state`: from the moment a client
/// is accepted until its socket is closed.
pub open spec fn indicator_in(state: ListenerState) -> bool {
    state == ListenerState::Connected || state == ListenerState::Closing
}

/// What bytes that arrive in `view` amount to. Outside a connection they
/// amount to nothing.
pub open spec fn read_decoded(config: Config, view: ListenerView, bytes: Seq<u8>) -> Decoded {
    if view.state == ListenerState::Connected {
        decode_read(config, view.cursor, bytes)
    } else {
        Decoded { events: Seq::empty(), acknowledge: false, close: false, cursor: view.cursor }
    }
}

/// The listener after bytes arrived in `view`: the cursor has moved as the
/// bytes say, and a read that closes the connection leaves the listener
/// closing.
pub open spec fn listener_read(config: Config, view: ListenerView, bytes: Seq<u8>) -> ListenerView {
    let decoded = read_decoded(config, view, bytes);
    ListenerView {
        state: if decoded.close {
            ListenerState::Closing
        } else {
            view.state
        },
        cursor: decoded.cursor,
    }
}

/// The listener.
#[derive(Clone, Copy, Debug, PartialEq, Eq)]
pub struct Listener {
    config: Config,
    state: ListenerState,
    session: Session,
}

impl Listener {
    /// The state of the listener and the cursor of its session.
    pub closed spec fn view(&self) -> ListenerView {
        ListenerView { state: self.state, cursor: self.session@ }
    }

    /// The settings that the listener was made with.
    pub closed spec fn spec_config(&self) -> Config {
        self.config
    }

    /// A listener with no connection.
    pub fn new(config: Config) -> (listener: Self)
        ensures
            listener.spec_config() == config,
            listener@.state == ListenerState::Listening,
            listener@.cursor == VirtualKeyaboardMatrixItem::N1,
    {
        Listener { config, state: ListenerState::Listening, session: Session::new() }
    }

    /// The settings that the listener was made with.
    #[verifier::when_used_as_spec(spec_config)]
    pub fn config(&self) -> (config: Config)
        ensures
            config == self.spec_config(),
    {
        self.config
    }

    /// Where the listener is in the life of a connection.
    pub fn state(&self) -> (state: ListenerState)
        ensures
            state == self@.state,
    {
        self.state
    }

    /// The key that the cursor of the session stands on.
    pub fn cursor(&self) -> (key: VirtualKeyaboardMatrixItem)
        ensures
            key == self@.cursor,
            key.spec_location() is Some,
    {
        self.session.cursor()
    }

    /// What is to be done on the socket now.
    pub fn action(&self) -> (action: ListenerAction)
        ensures
            action == action_in(self.spec_config(), self@.state),
    {
        match self.state {
            ListenerState::Listening => ListenerAction::Prepare {
                idle_timeout_secs: self.config.idle_timeout_secs,
            },
            ListenerState::Accepting => ListenerAction::Accept { port: self.config.port },
            ListenerState::Connected => ListenerAction::Read,
            ListenerState::Closing => ListenerAction::Close,
        }
    }

    /// Whether the status indicator is to be lit now.
    pub fn indicator(&self) -> (lit: bool)
        ensures
            lit == indicator_in(self@.state),
    {
        match self.state {
            ListenerState::Connected => true,
            ListenerState::Closing => true,
            _ => false,
        }
    }

    /// Takes in what happened on the socket and says what is to be done
    /// next.
    pub fn step(&mut self, event: ListenerEvent) -> (action: ListenerAction)
        ensures
            final(self)@ == listener_step(old(self)@, event),
            final(self).spec_config() == old(self).spec_config(),
            action == action_in(old(self).spec_config(), final(self)@.state),
    {
        match (self.state, event) {
            (ListenerState::Listening, ListenerEvent::Ready) => {
                self.state = ListenerState::Accepting;
            },
            (ListenerState::Accepting, ListenerEvent::Accepted) => {
                self.session = Session::new();
                self.state = ListenerState::Connected;
            },
            (ListenerState::Accepting, ListenerEvent::AcceptFailed) => {
                self.state = ListenerState::Listening;
            },
            (ListenerState::Connected, ListenerEvent::ReadFailed) => {
                self.state = ListenerState::Closing;
            },
            (ListenerState::Connected, ListenerEvent::IdleTimeout) => {
                self.state = ListenerState::Closing;
            },
            (ListenerState::Connected, ListenerEvent::WriteFailed) => {
                self.state = ListenerState::Closing;
            },
            (ListenerState::Closing, ListenerEvent::Closed) => {
                self.state = ListenerState::Listening;
            },
            _ => {},
        }
        self.action()
    }

    /// Takes in the bytes of one read and says what they amount to: the
    /// events to queue, whether to acknowledge, and whether the connection
    /// ends. Bytes that arrive outside a connection amount to nothing.
    pub fn on_read(&mut self, buf: &[u8]) -> (outcome: ReadOutcome)
        ensures
            outcome.matches_decoded(read_decoded(old(self).spec_config(), old(self)@, buf@)),
            final(self)@ == listener_read(old(self).spec_config(), old(self)@, buf@),
            final(self).spec_config() == old(self).spec_config(),
    {
        match self.state {
            ListenerState::Connected => {
                let config = self.config;
                let outcome = self.session.decode(&config, buf);
                if outcome.close {
                    self.state = ListenerState::Closing;
                }
                outcome
            },
            _ => ReadOutcome::idle(),
        }
    }
}

/// A connection that stays silent beyond the idle timeout is closed, and
/// nothing is emitted for it from then on: whatever bytes still come in
/// before the next client is accepted give no event and no acknowledgment.
pub proof fn lemma_idle_timeout_closes_in_silence(
    config: Config,
    view: ListenerView,
    bytes: Seq<u8>,
)
    requires
        view.state == ListenerState::Connected,
    ensures
        listener_step(view, ListenerEvent::IdleTimeout).state == ListenerState::Closing,
        action_in(config, listener_step(view, ListenerEvent::IdleTimeout).state)
            == ListenerAction::Close,
        read_decoded(config, listener_step(view, ListenerEvent::IdleTimeout), bytes).events
            == Seq::<ControlMessages>::empty(),
        !read_decoded(config, listener_step(view, ListenerEvent::IdleTimeout), bytes).acknowledge,
        listener_read(config, listener_step(view, ListenerEvent::IdleTimeout), bytes)
            == listener_step(view, ListenerEvent::IdleTimeout),
{
}

/// One connection at a time: a socket starts to accept only from
/// `Listening`, which is entered only when accepting failed or the last
/// connection is closed, and a client is connected only by accepting.
pub proof fn lemma_one_connection_at_a_time(state: ListenerState, event: ListenerEvent)
    ensures
        listener_next(state, event) == ListenerState::Accepting ==> state
            == ListenerState::Listening || state == ListenerState::Accepting,
        listener_next(state, event) == ListenerState::Connected ==> state
            == ListenerState::Accepting || state == ListenerState::Connected,
        listener_next(state, event) == ListenerState::Listening ==> state
            == ListenerState::Listening || (state == ListenerState::Accepting && event
            == ListenerEvent::AcceptFailed) || (state == ListenerState::Closing && event
            == ListenerEvent::Closed),
        state == ListenerState::Connected ==> listener_next(state, event)
            == ListenerState::Connected || listener_next(state, event) == ListenerState::Closing,
{
}

/// Every connection starts with the cursor on the first key of the grid,
/// wherever the connection before left it.
pub proof fn lemma_cursor_starts_at_origin(view: ListenerView)
    requires
        view.state == ListenerState::Accepting,
    ensures
        listener_step(view, ListenerEvent::Accepted).state == ListenerState::Connected,
        listener_step(view, ListenerEvent::Accepted).cursor == VirtualKeyaboardMatrixItem::N1,
{
}

} // verus!
