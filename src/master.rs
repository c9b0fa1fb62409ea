//! The master session: building request frames, dispatching received frames
//! on their response code, and the state machines of the segmented Get-Seed
//! read and the chunked Unlock write.
//!
//! Bus I/O stays with the caller. A caller transmits the frame of
//! `request_frame`, hands each frame it reads to `receive_frame` until that
//! gives a reply, and feeds the reply to the state machine, which says whether
//! to send its next request or stop.

use vstd::prelude::*;

use socketcan::{CanFrame, EmbeddedFrame, StandardId};

use crate::frame::{XcpCommand, XcpCommandFrame, XcpResponse, XcpResponseFrame};
use crate::xcp_command::{
    GetSeedCommand, GetSeedMode, GetSeedResponse, NegativeResponse, UnlockCommand, UnlockResponse,
    XcpResourceFlags,
};

verus! {

#[verifier::external_type_specification]
#[verifier::external_body]
pub struct ExCanFrame(socketcan::CanFrame);

#[verifier::external_type_specification]
#[verifier::external_body]
pub struct ExStandardId(socketcan::StandardId);

/// The raw value of a standard identifier, as `StandardId::as_raw`
/// (embedded-can) returns it.
pub uninterp spec fn standard_raw(i: StandardId) -> u16;

/// The payload of a frame, as socketcan's `EmbeddedFrame::data` returns it.
pub uninterp spec fn frame_data(f: CanFrame) -> Seq<u8>;

/// The raw value of the identifier that socketcan's `EmbeddedFrame::id`
/// returns for a frame.
pub uninterp spec fn frame_id(f: CanFrame) -> u32;

/// Relies on `StandardId::new` (embedded-can, re-exported by socketcan): an
/// identifier exactly when `raw` fits in eleven bits, holding `raw`.
#[verifier::external_body]
fn standard_id(raw: u16) -> (r: Option<StandardId>)
    ensures
        r is Some <==> raw <= 0x7FF,
        r matches Some(i) ==> standard_raw(i) == raw,
{
    StandardId::new(raw)
}

/// Relies on socketcan's `CanFrame::new` (its `EmbeddedFrame` constructor):
/// a data frame exactly when the payload holds at most eight bytes; the frame
/// carries that payload and the given identifier.
#[verifier::external_body]
fn data_frame(id: StandardId, data: &[u8]) -> (r: Option<CanFrame>)
    ensures
        r is Some <==> data@.len() <= 8,
        r matches Some(f) ==> frame_data(f) == data@ && frame_id(f) == standard_raw(id) as u32,
{
    <CanFrame as EmbeddedFrame>::new(id, data)
}

/// The largest identifier of a standard (11-bit) frame.
pub const MAX_STANDARD_ID: u32 = 0x7FF;

/// The largest payload of a classic CAN frame.
pub const MAX_FRAME_PAYLOAD: usize = 8;

/// Why a request could not be put in a frame.
#[derive(Debug, PartialEq, Eq, Structural, Clone, Copy)]
pub enum FrameError {
    /// The request identifier is not a standard 11-bit identifier.
    InvalidIdentifier(u32),
    /// The encoded command is longer than a frame's payload.
    PayloadTooLong(usize),
}

/// A received frame that breaks the protocol; the session must not go on.
#[derive(Debug, PartialEq, Eq, Structural, Clone, Copy)]
pub enum ProtocolViolation {
    /// Byte 0 is neither the positive nor the negative response code.
    UnknownResponseCode(u8),
    /// The frame is too short for the response it announces; the length is
    /// carried.
    Truncated(usize),
}

/// What a received frame means to a master that waits for a response of
/// type `R`.
#[derive(Debug)]
pub enum Reception<R: XcpResponse> {
    /// The frame carries another identifier and is discarded.
    Ignored,
    /// The awaited response: positive, or the peer's rejection.
    Reply(Result<XcpResponseFrame<R>, XcpResponseFrame<NegativeResponse>>),
    /// The frame breaks the protocol.
    Violation(ProtocolViolation),
}

/// The parameters of a master session: the identifiers of request and
/// response frames, and the maximum command (CTO) and data (DTO) payload
/// sizes.
#[derive(Debug, PartialEq, Eq, Structural, Clone, Copy)]
pub struct XcpSession {
    pub tx_id: u32,
    pub rx_id: u32,
    pub max_cto: usize,
    pub max_dto: usize,
}

impl XcpSession {
    /// Puts an encoded command in one frame addressed to the request
    /// identifier.
    pub fn request_frame<C: XcpCommand>(&self, command: &XcpCommandFrame<C>) -> (r: Result<
        CanFrame,
        FrameError,
    >)
        ensures
            self.tx_id > MAX_STANDARD_ID ==> r == Err::<CanFrame, FrameError>(
                FrameError::InvalidIdentifier(self.tx_id),
            ),
            self.tx_id <= MAX_STANDARD_ID && command.data.encoding().len() > MAX_FRAME_PAYLOAD
                ==> r == Err::<CanFrame, FrameError>(
                FrameError::PayloadTooLong(command.data.encoding().len() as usize),
            ),
            self.tx_id <= MAX_STANDARD_ID && command.data.encoding().len() <= MAX_FRAME_PAYLOAD
                ==> r is Ok,
            r matches Ok(f) ==> frame_data(f) == command.data.encoding() && frame_id(f)
                == self.tx_id,
    {
        let payload = command.to_can_frame();
        if self.tx_id > MAX_STANDARD_ID {
            return Err(FrameError::InvalidIdentifier(self.tx_id));
        }
        if payload.len() > MAX_FRAME_PAYLOAD {
            return Err(FrameError::PayloadTooLong(payload.len()));
        }
        let id = match standard_id(self.tx_id as u16) {
            Some(id) => id,
            None => {
                return Err(FrameError::InvalidIdentifier(self.tx_id));
            },
        };
        match data_frame(id, payload.as_slice()) {
            Some(frame) => Ok(frame),
            None => Err(FrameError::PayloadTooLong(payload.len())),
        }
    }

    /// Classifies a received frame, given by its identifier and payload, for
    /// a master that waits for a response of type `R`: frames of another
    /// identifier are ignored; byte 0 then selects a positive response
    /// (0xFF), a negative one (0xFE) or a protocol violation.
    pub fn receive_frame<R: XcpResponse>(&self, id: u32, data: &[u8]) -> (r: Reception<R>)
        ensures
            id != self.rx_id ==> r is Ignored,
            id == self.rx_id && data@.len() == 0 ==> r == Reception::<R>::Violation(
                ProtocolViolation::Truncated(0),
            ),
            id == self.rx_id && data@.len() > 0 && data@[0] == 0xFF && data@.len()
                >= R::min_frame_len() ==> (r matches Reception::Reply(Ok(f)) && f.data.decoded_from(
                data@,
            )),
            id == self.rx_id && data@.len() > 0 && data@[0] == 0xFF && data@.len()
                < R::min_frame_len() ==> r == Reception::<R>::Violation(
                ProtocolViolation::Truncated(data@.len() as usize),
            ),
            id == self.rx_id && data@.len() > 0 && data@[0] == 0xFE && data@.len()
                >= NegativeResponse::min_frame_len() ==> (r matches Reception::Reply(Err(f))
                && f.data.decoded_from(data@)),
            id == self.rx_id && data@.len() > 0 && data@[0] == 0xFE && data@.len()
                < NegativeResponse::min_frame_len() ==> r == Reception::<R>::Violation(
                ProtocolViolation::Truncated(data@.len() as usize),
            ),
            id == self.rx_id && data@.len() > 0 && data@[0] != 0xFF && data@[0] != 0xFE ==> r
                == Reception::<R>::Violation(ProtocolViolation::UnknownResponseCode(data@[0])),
    {
        if id != self.rx_id {
            return Reception::Ignored;
        }
        if data.len() == 0 {
            return Reception::Violation(ProtocolViolation::Truncated(0));
        }
        match crate::frame::XcpResponseCode::from_code(data[0]) {
            crate::frame::XcpResponseCode::PositiveResponse => {
                if data.len() < R::required_len() {
                    Reception::Violation(ProtocolViolation::Truncated(data.len()))
                } else {
                    Reception::Reply(Ok(XcpResponseFrame::<R>::from_can_frame(data)))
                }
            },
            crate::frame::XcpResponseCode::NegativeResponse => {
                if data.len() < NegativeResponse::required_len() {
                    Reception::Violation(ProtocolViolation::Truncated(data.len()))
                } else {
                    Reception::Reply(
                        Err(XcpResponseFrame::<NegativeResponse>::from_can_frame(data)),
                    )
                }
            },
            crate::frame::XcpResponseCode::UnknownResponse => {
                Reception::Violation(ProtocolViolation::UnknownResponseCode(data[0]))
            },
        }
    }
}

/// What the master does after a Get-Seed reply.
#[derive(Debug)]
pub enum SeedStep {
    /// Send the next request: the peer has more seed bytes.
    Continue,
    /// The last chunk has come: the seed is complete.
    Complete,
    /// The peer rejected the request; no partial seed is returned.
    Rejected(XcpResponseFrame<NegativeResponse>),
    /// The peer announced more to come but sent no seed byte, or more seed
    /// bytes than a one-byte length can announce: the read is abandoned.
    Stalled,
}

/// The longest seed that a one-byte remaining length can announce.
pub const MAX_SEED_LEN: usize = 255;

/// A segmented Get-Seed read: the first request asks to start the seed, each
/// later one to continue it, until a chunk's remaining length equals its own
/// length.
#[derive(Debug)]
pub struct SeedTransfer {
    resource: XcpResourceFlags,
    mode: GetSeedMode,
    seed: Vec<u8>,
}

impl SeedTransfer {
    /// The resources whose seed is read.
    pub closed spec fn resource(&self) -> XcpResourceFlags {
        self.resource
    }

    /// The mode of the next request.
    pub closed spec fn mode(&self) -> GetSeedMode {
        self.mode
    }

    /// The seed bytes received so far.
    pub closed spec fn seed(&self) -> Seq<u8> {
        self.seed@
    }

    /// A read of the seed of `resource`, before its first request.
    pub fn new(resource: XcpResourceFlags) -> (r: SeedTransfer)
        ensures
            r.resource() == resource,
            r.mode() == GetSeedMode::StartSeed,
            r.seed() == Seq::<u8>::empty(),
    {
        SeedTransfer { resource, mode: GetSeedMode::StartSeed, seed: Vec::new() }
    }

    /// The request to send now.
    pub fn request(&self) -> (c: XcpCommandFrame<GetSeedCommand>)
        ensures
            c.data == (GetSeedCommand { mode: self.mode(), resource: self.resource() }),
    {
        XcpCommandFrame { data: GetSeedCommand { mode: self.mode, resource: self.resource } }
    }

    /// Takes the reply to the last request. A positive reply appends its seed
    /// chunk; the read is complete when the reply's remaining length equals
    /// the chunk's length, and goes on in continue mode otherwise, as long as
    /// the chunk is not empty and the seed stays within `MAX_SEED_LEN` bytes;
    /// each continued step thus grows the seed, which bounds the number of
    /// requests. A negative reply is handed back unchanged.
    pub fn on_response(
        &mut self,
        reply: Result<XcpResponseFrame<GetSeedResponse>, XcpResponseFrame<NegativeResponse>>,
    ) -> (step: SeedStep)
        ensures
            final(self).resource() == old(self).resource(),
            match reply {
                Err(e) => {
                    &&& step == SeedStep::Rejected(e)
                    &&& final(self).seed() == old(self).seed()
                    &&& final(self).mode() == old(self).mode()
                },
                Ok(f) => {
                    let chunk = f.data.seed_data@;
                    let last = f.data.remaining_length as nat == chunk.len();
                    let stalled = !last && (chunk.len() == 0 || old(self).seed().len()
                        + chunk.len() > MAX_SEED_LEN);
                    &&& last ==> step is Complete
                    &&& stalled ==> step is Stalled && final(self).seed() == old(self).seed()
                        && final(self).mode() == old(self).mode()
                    &&& !last && !stalled ==> step is Continue
                    &&& !stalled ==> final(self).seed() == old(self).seed() + chunk
                        && final(self).mode() == GetSeedMode::ContinueSeed
                },
            },
            step is Continue ==> old(self).seed().len() < final(self).seed().len() <= MAX_SEED_LEN,
    {
        match reply {
            Err(e) => SeedStep::Rejected(e),
            Ok(f) => {
                let n = f.data.seed_data.len();
                let last = f.data.remaining_length as usize == n;
                if !last && (n == 0 || n > MAX_SEED_LEN || self.seed.len() > MAX_SEED_LEN - n) {
                    return SeedStep::Stalled;
                }
                let mut chunk = f.data.seed_data;
                self.seed.append(&mut chunk);
                self.mode = GetSeedMode::ContinueSeed;
                if last {
                    SeedStep::Complete
                } else {
                    SeedStep::Continue
                }
            },
        }
    }

    /// The seed bytes received so far.
    pub fn into_seed(self) -> (r: Vec<u8>)
        ensures
            r@ == self.seed(),
    {
        self.seed
    }
}

/// Why an Unlock transfer cannot start.
#[derive(Debug, PartialEq, Eq, Structural, Clone, Copy)]
pub enum UnlockSetupError {
    /// The maximum command size leaves no room for key bytes beside the
    /// command code and the remaining-length byte.
    MaxCtoTooSmall(usize),
    /// The key is longer than a one-byte remaining length can announce.
    KeyTooLong(usize),
}

/// The largest key that an Unlock transfer can send.
pub const MAX_KEY_LEN: usize = 255;

/// What the master does after an Unlock reply.
#[derive(Debug)]
pub enum UnlockStep {
    /// Send the next chunk of the key.
    Continue,
    /// The whole key is sent; the reply names the resources now unlocked.
    Unlocked(XcpResponseFrame<UnlockResponse>),
    /// The peer rejected the chunk; nothing more is sent.
    Rejected(XcpResponseFrame<NegativeResponse>),
}

/// The number of key bytes in the next Unlock frame.
pub open spec fn chunk_len(remaining: nat, capacity: nat) -> nat {
    if remaining < capacity {
        remaining
    } else {
        capacity
    }
}

/// A chunked Unlock write: each frame carries the number of key bytes not
/// yet sent, this chunk's included, then up to `max_cto - 2` key bytes.
#[derive(Debug)]
pub struct KeyTransfer {
    key: Vec<u8>,
    offset: usize,
    capacity: usize,
}

impl KeyTransfer {
    /// The whole key.
    pub closed spec fn key(&self) -> Seq<u8> {
        self.key@
    }

    /// How many key bytes the peer has accepted.
    pub closed spec fn offset(&self) -> nat {
        self.offset as nat
    }

    /// How many key bytes one frame carries at most.
    pub closed spec fn capacity(&self) -> nat {
        self.capacity as nat
    }

    /// The accepted bytes lie within the key, the key's length fits in one
    /// byte, and a frame carries at least one key byte.
    pub open spec fn wf(&self) -> bool {
        &&& self.offset() <= self.key().len()
        &&& self.key().len() <= MAX_KEY_LEN
        &&& self.capacity() >= 1
    }

    /// How many key bytes are still to send.
    pub open spec fn remaining(&self) -> nat {
        (self.key().len() - self.offset()) as nat
    }

    /// A transfer of `key` in frames of at most `max_cto` bytes. It needs
    /// room for one key byte per frame and a key whose length fits in one
    /// byte.
    pub fn new(key: Vec<u8>, max_cto: usize) -> (r: Result<KeyTransfer, UnlockSetupError>)
        ensures
            max_cto <= 2 ==> r == Err::<KeyTransfer, UnlockSetupError>(
                UnlockSetupError::MaxCtoTooSmall(max_cto),
            ),
            max_cto > 2 && key@.len() > MAX_KEY_LEN ==> r == Err::<KeyTransfer, UnlockSetupError>(
                UnlockSetupError::KeyTooLong(key@.len() as usize),
            ),
            max_cto > 2 && key@.len() <= MAX_KEY_LEN ==> (r matches Ok(t) && t.wf() && t.key()
                == key@ && t.offset() == 0 && t.capacity() == max_cto - 2),
    {
        if max_cto <= 2 {
            return Err(UnlockSetupError::MaxCtoTooSmall(max_cto));
        }
        if key.len() > MAX_KEY_LEN {
            return Err(UnlockSetupError::KeyTooLong(key.len()));
        }
        Ok(KeyTransfer { key, offset: 0, capacity: max_cto - 2 })
    }

    /// The frame to send now: the remaining length before this chunk, and
    /// the next `min(capacity, remaining)` key bytes.
    pub fn request(&self) -> (c: XcpCommandFrame<UnlockCommand>)
        requires
            self.wf(),
        ensures
            c.data.remaining_length as nat == self.remaining(),
            c.data.key_data@ == self.key().subrange(
                self.offset() as int,
                (self.offset() + chunk_len(self.remaining(), self.capacity())) as int,
            ),
            (c.data.remaining_length as nat, c.data.key_data@) == unlock_frames(
                self.key(),
                self.offset(),
                self.capacity(),
            )[0],
    {
        let remaining = self.key.len() - self.offset;
        let n = if remaining < self.capacity {
            remaining
        } else {
            self.capacity
        };
        let mut key_data: Vec<u8> = Vec::new();
        let mut i: usize = 0;
        while i < n
            invariant
                self.wf(),
                n <= remaining,
                remaining == self.key@.len() - self.offset,
                i <= n,
                key_data@ == self.key@.subrange(self.offset as int, self.offset + i),
            decreases n - i,
        {
            key_data.push(self.key[self.offset + i]);
            i = i + 1;
            assert(key_data@ =~= self.key@.subrange(self.offset as int, self.offset + i));
        }
        XcpCommandFrame { data: UnlockCommand { remaining_length: remaining as u8, key_data } }
    }

    /// Takes the reply to the last frame. A positive reply advances past the
    /// chunk; once no key byte is left it ends the transfer with that reply.
    /// A negative reply is handed back unchanged.
    pub fn on_response(
        &mut self,
        reply: Result<XcpResponseFrame<UnlockResponse>, XcpResponseFrame<NegativeResponse>>,
    ) -> (step: UnlockStep)
        requires
            old(self).wf(),
        ensures
            final(self).wf(),
            final(self).key() == old(self).key(),
            final(self).capacity() == old(self).capacity(),
            match reply {
                Err(e) => step == UnlockStep::Rejected(e) && final(self).offset() == old(
                    self,
                ).offset(),
                Ok(f) => {
                    &&& final(self).offset() == old(self).offset() + chunk_len(
                        old(self).remaining(),
                        old(self).capacity(),
                    )
                    &&& final(self).remaining() == 0 ==> step == UnlockStep::Unlocked(f)
                    &&& final(self).remaining() > 0 ==> step is Continue
                    &&& final(self).remaining() == 0 ==> unlock_frames(
                        old(self).key(),
                        old(self).offset(),
                        old(self).capacity(),
                    ).len() == 1
                    &&& final(self).remaining() > 0 ==> unlock_frames(
                        final(self).key(),
                        final(self).offset(),
                        final(self).capacity(),
                    ) == unlock_frames(
                        old(self).key(),
                        old(self).offset(),
                        old(self).capacity(),
                    ).drop_first()
                },
            },
    {
        match reply {
            Err(e) => UnlockStep::Rejected(e),
            Ok(f) => {
                let remaining = self.key.len() - self.offset;
                let n = if remaining < self.capacity {
                    remaining
                } else {
                    self.capacity
                };
                proof {
                    let frames = unlock_frames(self.key@, self.offset as nat, self.capacity as nat);
                    if remaining > self.capacity {
                        assert(frames.drop_first() =~= unlock_frames(
                            self.key@,
                            (self.offset + n) as nat,
                            self.capacity as nat,
                        ));
                    }
                }
                self.offset = self.offset + n;
                if self.offset == self.key.len() {
                    UnlockStep::Unlocked(f)
                } else {
                    UnlockStep::Continue
                }
            },
        }
    }
}

/// The frames that an Unlock transfer sends from `offset` on when every reply
/// is positive, each as its remaining length and its key chunk.
pub open spec fn unlock_frames(key: Seq<u8>, offset: nat, capacity: nat) -> Seq<(nat, Seq<u8>)>
    decreases key.len() - offset,
{
    if capacity == 0 || offset > key.len() {
        Seq::empty()
    } else {
        let remaining = (key.len() - offset) as nat;
        let n = chunk_len(remaining, capacity);
        let frame = (remaining, key.subrange(offset as int, (offset + n) as int));
        if remaining <= capacity {
            seq![frame]
        } else {
            seq![frame] + unlock_frames(key, offset + n, capacity)
        }
    }
}

/// The key chunks of a list of frames, joined in order.
pub open spec fn joined_chunks(frames: Seq<(nat, Seq<u8>)>) -> Seq<u8>
    decreases frames.len(),
{
    if frames.len() == 0 {
        Seq::empty()
    } else {
        frames[0].1 + joined_chunks(frames.drop_first())
    }
}

/// The frames of an Unlock transfer carry the key in order: their chunks
/// joined are the key bytes from `offset` on; the i-th frame announces the
/// `remaining - i * capacity` bytes not sent before it; every frame but the
/// last is full, and the last announces no more than one frame holds. A
/// transfer of an empty key still sends one (empty) frame.
pub proof fn unlock_frames_cover_key(key: Seq<u8>, offset: nat, capacity: nat)
    requires
        capacity > 0,
        offset <= key.len(),
    ensures
        ({
            let frames = unlock_frames(key, offset, capacity);
            let remaining = key.len() - offset;
            &&& frames.len() >= 1
            &&& joined_chunks(frames) == key.subrange(offset as int, key.len() as int)
            &&& forall|i: int|
                0 <= i < frames.len() ==> #[trigger] frames[i].0 == remaining - i * capacity
            &&& forall|i: int|
                0 <= i < frames.len() - 1 ==> (#[trigger] frames[i].1).len() == capacity
            &&& frames.last().0 <= capacity
            &&& frames.last().1.len() == frames.last().0
        }),
    decreases key.len() - offset,
{
    let frames = unlock_frames(key, offset, capacity);
    let remaining = (key.len() - offset) as nat;
    assert(0 * capacity == 0);
    if remaining <= capacity {
        assert(frames.len() == 1);
        assert(frames[0].0 == remaining);
        assert(frames.drop_first() =~= Seq::<(nat, Seq<u8>)>::empty());
        assert(joined_chunks(frames.drop_first()) == Seq::<u8>::empty());
        assert(joined_chunks(frames) =~= key.subrange(offset as int, key.len() as int));
    } else {
        let next = offset + capacity;
        unlock_frames_cover_key(key, next, capacity);
        let rest = unlock_frames(key, next, capacity);
        assert(frames.drop_first() =~= rest);
        assert(key.subrange(offset as int, next as int) + key.subrange(next as int, key.len() as int)
            =~= key.subrange(offset as int, key.len() as int));
        assert forall|i: int| 0 <= i < frames.len() implies #[trigger] frames[i].0 == remaining - i
            * capacity by {
            if i > 0 {
                assert(frames[i] == rest[i - 1]);
                assert((i - 1) * capacity + capacity == i * capacity) by (nonlinear_arith);
            }
        }
        assert forall|i: int| 0 <= i < frames.len() - 1 implies (#[trigger] frames[i].1).len()
            == capacity by {
            if i > 0 {
                assert(frames[i] == rest[i - 1]);
            }
        }
        assert(frames.last() == rest.last());
        assert(frames[0].1 == key.subrange(offset as int, next as int));
        assert(joined_chunks(frames) == frames[0].1 + joined_chunks(rest));
        assert(joined_chunks(frames) =~= key.subrange(offset as int, key.len() as int));
    }
}

/// Where a session stands in the connect, get-seed, unlock sequence.
#[derive(Debug, PartialEq, Eq, Structural, Clone, Copy)]
pub enum SessionState {
    Disconnected,
    Connected,
    /// Connected, with a complete seed read and no key sent since.
    SeedReceived,
}

/// An exchange that a master starts.
#[derive(Debug, PartialEq, Eq, Structural, Clone, Copy)]
pub enum Operation {
    Connect,
    GetSeed,
    Unlock,
}

/// How an exchange ended.
#[derive(Debug, PartialEq, Eq, Structural, Clone, Copy)]
pub enum Outcome {
    /// The slave answered positively.
    Succeeded,
    /// The slave answered with a negative response.
    Rejected,
    /// No answer was had: the frame could not be built or sent, the wait
    /// failed, or the slave broke the protocol.
    Failed,
}

impl SessionState {
    /// Connect may always be sent; Get-Seed only once connected; Unlock only
    /// after a seed was read.
    pub open spec fn allows(self, op: Operation) -> bool {
        match op {
            Operation::Connect => true,
            Operation::GetSeed => self != SessionState::Disconnected,
            Operation::Unlock => self == SessionState::SeedReceived,
        }
    }

    /// The state once `op` has ended with `outcome`. A failure without an
    /// answer leaves the state as it was; an answer moves it: a successful
    /// Connect connects, a Get-Seed leaves a seed exactly when it succeeded,
    /// and an Unlock, answered either way, uses the seed up.
    pub open spec fn next(self, op: Operation, outcome: Outcome) -> SessionState {
        match outcome {
            Outcome::Failed => self,
            Outcome::Succeeded => match op {
                Operation::Connect => SessionState::Connected,
                Operation::GetSeed => SessionState::SeedReceived,
                Operation::Unlock => SessionState::Connected,
            },
            Outcome::Rejected => match op {
                Operation::Connect => self,
                Operation::GetSeed => SessionState::Connected,
                Operation::Unlock => SessionState::Connected,
            },
        }
    }

    /// Whether `op` may be started in this state.
    pub fn permits(&self, op: Operation) -> (r: bool)
        ensures
            r == self.allows(op),
    {
        match op {
            Operation::Connect => true,
            Operation::GetSeed => match self {
                SessionState::Disconnected => false,
                _ => true,
            },
            Operation::Unlock => match self {
                SessionState::SeedReceived => true,
                _ => false,
            },
        }
    }

    /// The state after `op`, started where this state allows it, has ended
    /// with `outcome`.
    pub fn after(&self, op: Operation, outcome: Outcome) -> (r: SessionState)
        requires
            self.allows(op),
        ensures
            r == self.next(op, outcome),
    {
        match outcome {
            Outcome::Failed => *self,
            Outcome::Succeeded => match op {
                Operation::Connect => SessionState::Connected,
                Operation::GetSeed => SessionState::SeedReceived,
                Operation::Unlock => SessionState::Connected,
            },
            Outcome::Rejected => match op {
                Operation::Connect => *self,
                Operation::GetSeed => SessionState::Connected,
                Operation::Unlock => SessionState::Connected,
            },
        }
    }
}

/// Whatever their outcomes, the exchanges that a state allows never lead a
/// connected session back to the disconnected state; Unlock becomes allowed
/// by a successful Get-Seed and stays allowed only while no answered
/// exchange but a rejected Connect has come since.
pub proof fn session_state_order(s: SessionState, op: Operation, outcome: Outcome)
    requires
        s.allows(op),
    ensures
        s != SessionState::Disconnected ==> s.next(op, outcome) != SessionState::Disconnected,
        s.next(op, outcome).allows(Operation::Unlock) <==> (op == Operation::GetSeed && outcome
            == Outcome::Succeeded) || (s == SessionState::SeedReceived && (outcome
            == Outcome::Failed || (op == Operation::Connect && outcome == Outcome::Rejected))),
{
}

} // verus!
