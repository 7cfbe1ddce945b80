use vstd::prelude::*;
use crate::envelope::{
    build_header, finalize, validate, control_frames, frames_view, validation_error, Envelope,
    ProtocolError, ACK, HEADER_INDEX, PING, REGISTER,
};

verus! {

/// How long the client waits for a reply to each request.
pub const REPLY_TIMEOUT_MS: u64 = 1000;

/// How long the client pauses after an acknowledged heartbeat.
pub const HEARTBEAT_INTERVAL_MS: u64 = 1000;

/// Where the client stands with the arbiter. Once registered it stays so.
#[derive(Clone, Copy, Debug, PartialEq, Eq, Structural)]
pub enum ClientState {
    Unregistered,
    Registered,
}

/// What one tick came to, once its request was sent and its reply awaited.
#[derive(Clone, Copy, Debug, PartialEq, Eq, Structural)]
pub enum TickOutcome {
    /// The arbiter acknowledged the registration; the client is now registered.
    Registered,
    /// The arbiter acknowledged a heartbeat.
    Acknowledged,
    /// No acceptable reply came; the request is made again at once.
    Failed(ProtocolError),
}

/// What the transport handed back after a wait: the frames of one multipart
/// message, or `None` if nothing arrived in time.
pub open spec fn reply_view(reply: Option<Vec<Vec<u8>>>) -> Option<Seq<Seq<u8>>> {
    match reply {
        Some(f) => Some(frames_view(f@)),
        None => None,
    }
}

/// Why `reply` is not an acceptable envelope of type `expected`; `None` if it is.
pub open spec fn reply_error(reply: Option<Seq<Seq<u8>>>, expected: u8) -> Option<ProtocolError> {
    match reply {
        None => Some(ProtocolError::TimeoutError),
        Some(f) => match validation_error(f) {
            Some(e) => Some(e),
            None => if f[HEADER_INDEX as int][1] == expected {
                None
            } else {
                Some(ProtocolError::UnexpectedTypeError)
            },
        },
    }
}

/// The type of the request that the client sends in state `s`.
pub open spec fn request_type(s: ClientState) -> u8 {
    match s {
        ClientState::Unregistered => REGISTER,
        ClientState::Registered => PING,
    }
}

/// What a tick in state `s` comes to when the request went out and `reply` came back.
pub open spec fn tick_outcome(s: ClientState, reply: Option<Seq<Seq<u8>>>) -> TickOutcome {
    match reply_error(reply, ACK) {
        Some(e) => TickOutcome::Failed(e),
        None => match s {
            ClientState::Unregistered => TickOutcome::Registered,
            ClientState::Registered => TickOutcome::Acknowledged,
        },
    }
}

/// The state after a tick in state `s` that came to `o`.
pub open spec fn next_state(s: ClientState, o: TickOutcome) -> ClientState {
    match o {
        TickOutcome::Failed(_) => s,
        _ => ClientState::Registered,
    }
}

/// How long to pause before the next tick after a tick that came to `o`.
pub open spec fn pause_of(o: TickOutcome) -> u64 {
    match o {
        TickOutcome::Acknowledged => HEARTBEAT_INTERVAL_MS,
        _ => 0,
    }
}

/// The types of the requests sent over successive ticks from state `s`,
/// when the waits bring back `replies` in turn.
pub open spec fn sent_types(s: ClientState, replies: Seq<Option<Seq<Seq<u8>>>>) -> Seq<u8>
    decreases replies.len(),
{
    if replies.len() == 0 {
        Seq::empty()
    } else {
        seq![request_type(s)] + sent_types(
            next_state(s, tick_outcome(s, replies[0])),
            replies.drop_first(),
        )
    }
}

/// The state reached over successive ticks from state `s`, when the waits
/// bring back `replies` in turn.
pub open spec fn state_after(s: ClientState, replies: Seq<Option<Seq<Seq<u8>>>>) -> ClientState
    decreases replies.len(),
{
    if replies.len() == 0 {
        s
    } else {
        state_after(next_state(s, tick_outcome(s, replies[0])), replies.drop_first())
    }
}

/// Accepts `reply` if it is a valid envelope of type `expected`.
pub fn check_reply(reply: Option<Vec<Vec<u8>>>, expected: u8) -> (r: Result<
    Envelope,
    ProtocolError,
>)
    ensures
        match r {
            Ok(e) => reply_error(reply_view(reply), expected) is None && e.wf() && Some(
                e.frames(),
            ) == reply_view(reply),
            Err(err) => reply_error(reply_view(reply), expected) == Some(err),
        },
{
    match reply {
        None => Err(ProtocolError::TimeoutError),
        Some(frames) => match validate(frames) {
            Err(e) => Err(e),
            Ok(e) => {
                if e.message_type == expected {
                    Ok(e)
                } else {
                    Err(ProtocolError::UnexpectedTypeError)
                }
            },
        },
    }
}

impl TickOutcome {
    /// How long to pause before the next tick: the heartbeat interval after
    /// an acknowledged heartbeat, none otherwise.
    pub fn pause_ms(&self) -> (r: u64)
        ensures
            r == pause_of(*self),
    {
        match self {
            TickOutcome::Acknowledged => HEARTBEAT_INTERVAL_MS,
            _ => 0,
        }
    }
}

/// The client's side of the protocol: whom it addresses, and where it stands.
pub struct Client {
    pub peer: Vec<u8>,
    pub state: ClientState,
}

impl Client {
    /// A client that addresses `peer` and has not registered yet.
    pub fn new(peer: Vec<u8>) -> (r: Client)
        ensures
            r.peer@ == peer@,
            r.state == ClientState::Unregistered,
    {
        Client { peer, state: ClientState::Unregistered }
    }

    /// Where the client stands.
    pub fn state(&self) -> (r: ClientState)
        ensures
            r == self.state,
    {
        self.state
    }

    /// The envelope to send on this tick: a registration request while
    /// unregistered, a heartbeat probe once registered.
    pub fn request(&self) -> (r: Vec<Vec<u8>>)
        ensures
            frames_view(r@) == control_frames(self.peer@, request_type(self.state)),
    {
        let message_id = match self.state {
            ClientState::Unregistered => REGISTER,
            ClientState::Registered => PING,
        };
        let header = build_header(self.peer.as_slice(), message_id);
        finalize(header, Vec::new())
    }

    /// Ends the tick. `sent` tells whether the transport took the request;
    /// `reply` is what the wait that followed brought back. A request that
    /// could not be sent ends the client with `TransportSendError`; anything
    /// else comes to an outcome and the state moves on accordingly.
    pub fn complete_tick(&mut self, sent: bool, reply: Option<Vec<Vec<u8>>>) -> (r: Result<
        TickOutcome,
        ProtocolError,
    >)
        ensures
            final(self).peer == old(self).peer,
            match r {
                Err(e) => !sent && e == ProtocolError::TransportSendError && final(self).state
                    == old(self).state,
                Ok(o) => sent && o == tick_outcome(old(self).state, reply_view(reply))
                    && final(self).state == next_state(old(self).state, o),
            },
    {
        if !sent {
            return Err(ProtocolError::TransportSendError);
        }
        let outcome = match check_reply(reply, ACK) {
            Err(e) => TickOutcome::Failed(e),
            Ok(_) => match self.state {
                ClientState::Unregistered => TickOutcome::Registered,
                ClientState::Registered => TickOutcome::Acknowledged,
            },
        };
        match outcome {
            TickOutcome::Failed(_) => {},
            _ => {
                self.state = ClientState::Registered;
            },
        }
        Ok(outcome)
    }
}

} // verus!
