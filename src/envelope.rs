use vstd::prelude::*;
use vstd::slice::slice_to_vec;

verus! {

/// Number of frames in every envelope.
pub const FRAME_COUNT: usize = 8;

/// Position of the two-byte header frame.
pub const HEADER_INDEX: usize = 5;

/// Length of the header frame: `[version_or_reserved, message_type]`.
pub const HEADER_LEN: usize = 2;

/// Largest message type the protocol knows.
pub const MAX_MESSAGE_TYPE: u8 = 3;

/// Message type of a registration request.
pub const REGISTER: u8 = 0;

/// Message type of a heartbeat probe.
pub const PING: u8 = 2;

/// Message type of an acknowledgement (of a registration or of a heartbeat).
pub const ACK: u8 = 3;

/// Why an exchange with the arbiter did not succeed.
#[derive(Clone, Copy, Debug, PartialEq, Eq, Structural)]
pub enum ProtocolError {
    /// The envelope does not hold exactly eight frames.
    SizeError,
    /// The header frame is not exactly two bytes long.
    MalformedHeaderError,
    /// The message type byte is above the largest known type.
    UnsupportedTypeError,
    /// The integrity tag did not verify.
    IntegrityError,
    /// No envelope arrived within the wait.
    TimeoutError,
    /// A valid envelope arrived, but not of the type that was awaited.
    UnexpectedTypeError,
    /// The transport refused to send a request.
    TransportSendError,
}

/// The frames of a multipart message, each as its bytes.
pub open spec fn frames_view(frames: Seq<Vec<u8>>) -> Seq<Seq<u8>> {
    frames.map_values(|f: Vec<u8>| f@)
}

/// The six leading frames addressed to `peer` for a message of type `message_id`.
pub open spec fn header_frames(peer: Seq<u8>, message_id: u8) -> Seq<Seq<u8>> {
    seq![peer, Seq::empty(), Seq::empty(), Seq::empty(), Seq::empty(), seq![0u8, message_id]]
}

/// `frames` followed by the payload frame and an empty checksum frame.
pub open spec fn finalized_frames(frames: Seq<Seq<u8>>, payload: Seq<u8>) -> Seq<Seq<u8>> {
    frames.push(payload).push(Seq::empty())
}

/// The whole envelope of a message with an empty payload.
pub open spec fn control_frames(peer: Seq<u8>, message_id: u8) -> Seq<Seq<u8>> {
    finalized_frames(header_frames(peer, message_id), Seq::empty())
}

/// The integrity step of validation. No integrity scheme is defined yet, so
/// every envelope passes; a real check replaces this predicate and the
/// function that computes it, and nothing else.
pub open spec fn checksum_accepts(frames: Seq<Seq<u8>>) -> bool {
    true
}

/// The first rule that `frames` breaks, in the order size, header length,
/// message type, integrity; `None` if it breaks none.
pub open spec fn validation_error(frames: Seq<Seq<u8>>) -> Option<ProtocolError> {
    if frames.len() != FRAME_COUNT {
        Some(ProtocolError::SizeError)
    } else if frames[HEADER_INDEX as int].len() != HEADER_LEN {
        Some(ProtocolError::MalformedHeaderError)
    } else if frames[HEADER_INDEX as int][1] > MAX_MESSAGE_TYPE {
        Some(ProtocolError::UnsupportedTypeError)
    } else if !checksum_accepts(frames) {
        Some(ProtocolError::IntegrityError)
    } else {
        None
    }
}

/// A validated envelope, one named field per frame; the header frame is held
/// as its two bytes.
pub struct Envelope {
    pub identity: Vec<u8>,
    pub delimiter: Vec<u8>,
    pub spare1: Vec<u8>,
    pub spare2: Vec<u8>,
    pub spare3: Vec<u8>,
    pub version: u8,
    pub message_type: u8,
    pub payload: Vec<u8>,
    pub checksum: Vec<u8>,
}

impl Envelope {
    /// The eight frames of the envelope, in wire order.
    pub open spec fn frames(&self) -> Seq<Seq<u8>> {
        seq![
            self.identity@,
            self.delimiter@,
            self.spare1@,
            self.spare2@,
            self.spare3@,
            seq![self.version, self.message_type],
            self.payload@,
            self.checksum@,
        ]
    }

    /// An envelope that validation accepts.
    pub open spec fn wf(&self) -> bool {
        validation_error(self.frames()) is None
    }

    /// The envelope as the frames to hand to the transport.
    pub fn into_frames(self) -> (r: Vec<Vec<u8>>)
        ensures
            frames_view(r@) == self.frames(),
    {
        let header: Vec<u8> = vec![self.version, self.message_type];
        let r: Vec<Vec<u8>> = vec![
            self.identity,
            self.delimiter,
            self.spare1,
            self.spare2,
            self.spare3,
            header,
            self.payload,
            self.checksum,
        ];
        proof {
            assert(frames_view(r@) =~= self.frames());
        }
        r
    }
}

/// The six leading frames of a message of type `message_id` addressed to
/// `peer`: the peer's identity, an empty delimiter, three empty spare frames
/// and the header `[0, message_id]`.
pub fn build_header(peer: &[u8], message_id: u8) -> (r: Vec<Vec<u8>>)
    ensures
        frames_view(r@) == header_frames(peer@, message_id),
{
    let identity = slice_to_vec(peer);
    let r: Vec<Vec<u8>> = vec![
        identity,
        Vec::new(),
        Vec::new(),
        Vec::new(),
        Vec::new(),
        vec![0u8, message_id],
    ];
    proof {
        assert(frames_view(r@) =~= header_frames(peer@, message_id));
    }
    r
}

/// Appends the checksum frame. No integrity tag is computed yet, so the
/// frame is empty.
pub fn append_checksum(frames: &mut Vec<Vec<u8>>)
    ensures
        frames_view(final(frames)@) == frames_view(old(frames)@).push(Seq::empty()),
{
    frames.push(Vec::new());
    proof {
        assert(frames_view(final(frames)@) =~= frames_view(old(frames)@).push(Seq::empty()));
    }
}

/// Completes `frames` with the payload frame and the checksum frame.
pub fn finalize(frames: Vec<Vec<u8>>, payload: Vec<u8>) -> (r: Vec<Vec<u8>>)
    ensures
        frames_view(r@) == finalized_frames(frames_view(frames@), payload@),
{
    let mut r = frames;
    r.push(payload);
    proof {
        assert(frames_view(r@) =~= frames_view(frames@).push(payload@));
    }
    append_checksum(&mut r);
    r
}

/// The integrity step of validation (see `checksum_accepts`).
pub fn is_checksum_valid(frames: &Vec<Vec<u8>>) -> (r: bool)
    ensures
        r == checksum_accepts(frames_view(frames@)),
{
    true
}

/// Checks a received multipart message and, if it is a protocol envelope,
/// returns it as one. The rules are tried in a fixed order, and the first
/// that fails gives the error.
pub fn validate(frames: Vec<Vec<u8>>) -> (r: Result<Envelope, ProtocolError>)
    ensures
        match r {
            Ok(e) => e.wf() && e.frames() == frames_view(frames@),
            Err(err) => validation_error(frames_view(frames@)) == Some(err),
        },
{
    let ghost fv = frames_view(frames@);
    if frames.len() != FRAME_COUNT {
        return Err(ProtocolError::SizeError);
    }
    assert(fv[HEADER_INDEX as int] == frames@[HEADER_INDEX as int]@);
    if frames[HEADER_INDEX].len() != HEADER_LEN {
        return Err(ProtocolError::MalformedHeaderError);
    }
    let version = frames[HEADER_INDEX][0];
    let message_type = frames[HEADER_INDEX][1];
    if message_type > MAX_MESSAGE_TYPE {
        return Err(ProtocolError::UnsupportedTypeError);
    }
    if !is_checksum_valid(&frames) {
        return Err(ProtocolError::IntegrityError);
    }
    let ghost fs = frames@;
    assert(fs[HEADER_INDEX as int]@ =~= seq![version, message_type]);
    let mut rest = frames;
    let checksum = rest.pop().unwrap();
    let payload = rest.pop().unwrap();
    let _header = rest.pop().unwrap();
    let spare3 = rest.pop().unwrap();
    let spare2 = rest.pop().unwrap();
    let spare1 = rest.pop().unwrap();
    let delimiter = rest.pop().unwrap();
    let identity = rest.pop().unwrap();
    let ghost parts = (identity, delimiter, spare1, spare2, spare3, payload, checksum);
    let e = Envelope {
        identity,
        delimiter,
        spare1,
        spare2,
        spare3,
        version,
        message_type,
        payload,
        checksum,
    };
    proof {
        assert(parts.0 == fs[0] && parts.1 == fs[1] && parts.2 == fs[2]);
        assert(parts.3 == fs[3] && parts.4 == fs[4] && parts.5 == fs[6] && parts.6 == fs[7]);
        assert(e.frames() =~= fv);
    }
    Ok(e)
}

} // verus!
