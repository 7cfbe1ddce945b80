use vstd::prelude::*;
use crate::client::{
    next_state, pause_of, request_type, sent_types, state_after, tick_outcome, ClientState,
    TickOutcome, HEARTBEAT_INTERVAL_MS,
};
use crate::envelope::{
    finalized_frames, header_frames, validation_error, ProtocolError, ACK, FRAME_COUNT,
    HEADER_INDEX, MAX_MESSAGE_TYPE, PING, REGISTER,
};

verus! {

/// An envelope built for a non-empty peer identity and a known message type,
/// with any payload, passes validation, and its header carries that type.
pub proof fn lemma_round_trip(peer: Seq<u8>, message_id: u8, payload: Seq<u8>)
    requires
        peer.len() > 0,
        message_id <= MAX_MESSAGE_TYPE,
    ensures
        validation_error(finalized_frames(header_frames(peer, message_id), payload)) is None,
        finalized_frames(header_frames(peer, message_id), payload)[HEADER_INDEX as int][1]
            == message_id,
{
    let f = finalized_frames(header_frames(peer, message_id), payload);
    assert(f.len() == FRAME_COUNT);
    assert(f[HEADER_INDEX as int] == seq![0u8, message_id]);
}

/// A message of any frame count but eight is refused for its size, whatever
/// its frames hold.
pub proof fn lemma_size_rejection(frames: Seq<Seq<u8>>)
    requires
        frames.len() != FRAME_COUNT,
    ensures
        validation_error(frames) == Some(ProtocolError::SizeError),
{
}

/// A message of eight frames whose header frame is one or three bytes long
/// is refused as malformed.
pub proof fn lemma_header_length_rejection(frames: Seq<Seq<u8>>)
    requires
        frames.len() == FRAME_COUNT,
        frames[HEADER_INDEX as int].len() == 1 || frames[HEADER_INDEX as int].len() == 3,
    ensures
        validation_error(frames) == Some(ProtocolError::MalformedHeaderError),
{
}

/// Of eight frames with a two-byte header, message type 4 is refused as
/// unsupported and message type 3 is accepted.
pub proof fn lemma_type_range(frames: Seq<Seq<u8>>)
    requires
        frames.len() == FRAME_COUNT,
        frames[HEADER_INDEX as int].len() == 2,
    ensures
        frames[HEADER_INDEX as int][1] == 4 ==> validation_error(frames) == Some(
            ProtocolError::UnsupportedTypeError,
        ),
        frames[HEADER_INDEX as int][1] == 3 ==> validation_error(frames) is None,
{
}

/// A valid acknowledgement to the first registration request registers the
/// client after that one tick.
pub proof fn lemma_registration_liveness(ack: Seq<Seq<u8>>)
    requires
        validation_error(ack) is None,
        ack[HEADER_INDEX as int][1] == ACK,
    ensures
        state_after(ClientState::Unregistered, seq![Some(ack)]) == ClientState::Registered,
        sent_types(ClientState::Unregistered, seq![Some(ack)]) == seq![REGISTER],
{
    let replies: Seq<Option<Seq<Seq<u8>>>> = seq![Some(ack)];
    let none: Seq<Option<Seq<Seq<u8>>>> = Seq::empty();
    assert(replies.drop_first() =~= none);
    assert(tick_outcome(ClientState::Unregistered, Some(ack)) == TickOutcome::Registered);
    assert(state_after(ClientState::Registered, none) == ClientState::Registered);
    assert(sent_types(ClientState::Registered, none) == Seq::<u8>::empty());
    assert(sent_types(ClientState::Unregistered, replies) =~= seq![REGISTER]);
}

/// When the first two registration requests time out and the third is
/// acknowledged, the client sends exactly three registration requests, stays
/// unregistered until the third reply, and is registered after it.
pub proof fn lemma_registration_retry(ack: Seq<Seq<u8>>)
    requires
        validation_error(ack) is None,
        ack[HEADER_INDEX as int][1] == ACK,
    ensures
        state_after(ClientState::Unregistered, seq![None, None]) == ClientState::Unregistered,
        state_after(ClientState::Unregistered, seq![None, None, Some(ack)])
            == ClientState::Registered,
        sent_types(ClientState::Unregistered, seq![None, None, Some(ack)]) == seq![
            REGISTER,
            REGISTER,
            REGISTER,
        ],
{
    let r3: Seq<Option<Seq<Seq<u8>>>> = seq![None, None, Some(ack)];
    let r2: Seq<Option<Seq<Seq<u8>>>> = seq![None, Some(ack)];
    let r1: Seq<Option<Seq<Seq<u8>>>> = seq![Some(ack)];
    let n2: Seq<Option<Seq<Seq<u8>>>> = seq![None, None];
    let n1: Seq<Option<Seq<Seq<u8>>>> = seq![None];
    let none: Seq<Option<Seq<Seq<u8>>>> = Seq::empty();
    assert(tick_outcome(ClientState::Unregistered, Some(ack)) == TickOutcome::Registered);
    assert(state_after(ClientState::Registered, none) == ClientState::Registered);
    assert(state_after(ClientState::Unregistered, none) == ClientState::Unregistered);
    assert(sent_types(ClientState::Registered, none) == Seq::<u8>::empty());
    assert(r3.drop_first() =~= r2);
    assert(r2.drop_first() =~= r1);
    assert(r1.drop_first() =~= none);
    assert(n2.drop_first() =~= n1);
    assert(n1.drop_first() =~= none);
    assert(state_after(ClientState::Unregistered, n1) == ClientState::Unregistered);
    assert(state_after(ClientState::Unregistered, r1) == ClientState::Registered);
    assert(state_after(ClientState::Unregistered, r2) == ClientState::Registered);
    assert(sent_types(ClientState::Unregistered, r1) =~= seq![REGISTER]);
    assert(sent_types(ClientState::Unregistered, r2) =~= seq![REGISTER, REGISTER]);
    assert(sent_types(ClientState::Unregistered, r3) =~= seq![REGISTER, REGISTER, REGISTER]);
}

/// Once registered, a failed heartbeat (a timeout, a refused or unexpected
/// reply) leaves the client registered, with no pause before the next probe;
/// an acknowledged heartbeat keeps it registered and pauses for the
/// heartbeat interval before the next probe.
pub proof fn lemma_heartbeat_keeps_registration(reply: Option<Seq<Seq<u8>>>)
    ensures
        reply is None ==> tick_outcome(ClientState::Registered, reply) == TickOutcome::Failed(
            ProtocolError::TimeoutError,
        ),
        next_state(ClientState::Registered, tick_outcome(ClientState::Registered, reply))
            == ClientState::Registered,
        request_type(
            next_state(ClientState::Registered, tick_outcome(ClientState::Registered, reply)),
        ) == PING,
        tick_outcome(ClientState::Registered, reply) is Failed ==> pause_of(
            tick_outcome(ClientState::Registered, reply),
        ) == 0,
        tick_outcome(ClientState::Registered, reply) == TickOutcome::Acknowledged ==> pause_of(
            tick_outcome(ClientState::Registered, reply),
        ) == HEARTBEAT_INTERVAL_MS,
        tick_outcome(ClientState::Registered, reply) is Failed || tick_outcome(
            ClientState::Registered,
            reply,
        ) == TickOutcome::Acknowledged,
{
}

/// No tick takes a registered client back to unregistered.
pub proof fn lemma_registration_is_permanent(replies: Seq<Option<Seq<Seq<u8>>>>)
    ensures
        state_after(ClientState::Registered, replies) == ClientState::Registered,
    decreases replies.len(),
{
    if replies.len() > 0 {
        lemma_registration_is_permanent(replies.drop_first());
    }
}

} // verus!
