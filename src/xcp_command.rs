//! The commands and responses of the connect and seed/key exchange, their
//! wire layouts, and the flag bytes they carry.

use vstd::prelude::*;
use vstd::slice::{slice_subrange, slice_to_vec};

use crate::frame::{
    XcpCommand, XcpCommandCode, XcpErrorCode, XcpResponse, XcpResponseFrame, is_error_code,
};

verus! {

/// Enumeration for XCP connection modes.
#[derive(Debug, PartialEq, Eq, Structural, Clone, Copy)]
pub enum ConnectMode {
    Normal,
    UserDefined,
}

impl ConnectMode {
    /// The mode byte on the wire.
    pub open spec fn byte(self) -> u8 {
        match self {
            ConnectMode::Normal => 0,
            ConnectMode::UserDefined => 1,
        }
    }

    fn to_byte(&self) -> (r: u8)
        ensures
            r == self.byte(),
    {
        match self {
            ConnectMode::Normal => 0,
            ConnectMode::UserDefined => 1,
        }
    }
}

/// Enumeration for XCP seed modes.
#[derive(Debug, PartialEq, Eq, Structural, Clone, Copy)]
pub enum GetSeedMode {
    StartSeed,
    ContinueSeed,
}

impl GetSeedMode {
    /// The mode byte on the wire.
    pub open spec fn byte(self) -> u8 {
        match self {
            GetSeedMode::StartSeed => 0,
            GetSeedMode::ContinueSeed => 1,
        }
    }

    fn to_byte(&self) -> (r: u8)
        ensures
            r == self.byte(),
    {
        match self {
            GetSeedMode::StartSeed => 0,
            GetSeedMode::ContinueSeed => 1,
        }
    }
}

/// A single protected resource.
#[derive(Debug, PartialEq, Eq, Structural, Clone, Copy)]
pub enum XcpResource {
    CalPage,
    Daq,
    Stim,
    Pgm,
}

/// The set of resources named by a Get-Seed, Unlock or Connect exchange.
/// On the wire: bit 0 calibration page, bit 2 DAQ, bit 3 STIM, bit 4
/// programming; bits 1, 5, 6 and 7 are not used.
#[derive(Debug, PartialEq, Eq, Structural, Clone, Copy)]
pub struct XcpResourceFlags {
    pub cal_page: bool,
    pub daq: bool,
    pub stim: bool,
    pub pgm: bool,
}

/// The mask of the bits that carry a resource.
pub const RESOURCE_MASK: u8 = 0x1D;

impl XcpResourceFlags {
    /// The flag byte on the wire.
    pub open spec fn byte(self) -> u8 {
        (if self.pgm { 0x10u8 } else { 0u8 }) | (if self.stim { 0x08u8 } else { 0u8 }) | (
        if self.daq { 0x04u8 } else { 0u8 }) | (if self.cal_page { 0x01u8 } else { 0u8 })
    }

    /// The flags with exactly the one named resource set.
    pub open spec fn of_resource(resource: XcpResource) -> XcpResourceFlags {
        XcpResourceFlags {
            cal_page: resource == XcpResource::CalPage,
            daq: resource == XcpResource::Daq,
            stim: resource == XcpResource::Stim,
            pgm: resource == XcpResource::Pgm,
        }
    }

    /// The flags that a byte carries; unused bits are ignored.
    pub open spec fn of_byte(b: u8) -> XcpResourceFlags {
        XcpResourceFlags {
            cal_page: b & 0x01 != 0,
            daq: b & 0x04 != 0,
            stim: b & 0x08 != 0,
            pgm: b & 0x10 != 0,
        }
    }
}

impl Default for XcpResourceFlags {
    fn default() -> (r: XcpResourceFlags)
        ensures
            r == (XcpResourceFlags { cal_page: false, daq: false, stim: false, pgm: false }),
    {
        XcpResourceFlags { cal_page: false, daq: false, stim: false, pgm: false }
    }
}

impl From<XcpResource> for XcpResourceFlags {
    fn from(resource: XcpResource) -> (r: XcpResourceFlags)
        ensures
            r == XcpResourceFlags::of_resource(resource),
    {
        XcpResourceFlags {
            cal_page: match resource {
                XcpResource::CalPage => true,
                _ => false,
            },
            daq: match resource {
                XcpResource::Daq => true,
                _ => false,
            },
            stim: match resource {
                XcpResource::Stim => true,
                _ => false,
            },
            pgm: match resource {
                XcpResource::Pgm => true,
                _ => false,
            },
        }
    }
}

impl vstd::std_specs::convert::FromSpecImpl<XcpResource> for XcpResourceFlags {
    open spec fn obeys_from_spec() -> bool {
        true
    }

    open spec fn from_spec(resource: XcpResource) -> XcpResourceFlags {
        XcpResourceFlags::of_resource(resource)
    }
}

impl From<u8> for XcpResourceFlags {
    fn from(val: u8) -> (r: XcpResourceFlags)
        ensures
            r == XcpResourceFlags::of_byte(val),
    {
        let mut flags = XcpResourceFlags::default();
        if (val & 0x01) != 0 {
            flags.cal_page = true;
        }
        if (val & 0x04) != 0 {
            flags.daq = true;
        }
        if (val & 0x08) != 0 {
            flags.stim = true;
        }
        if (val & 0x10) != 0 {
            flags.pgm = true;
        }
        flags
    }
}

impl vstd::std_specs::convert::FromSpecImpl<u8> for XcpResourceFlags {
    open spec fn obeys_from_spec() -> bool {
        true
    }

    open spec fn from_spec(val: u8) -> XcpResourceFlags {
        XcpResourceFlags::of_byte(val)
    }
}

impl From<XcpResourceFlags> for u8 {
    fn from(flags: XcpResourceFlags) -> (r: u8)
        ensures
            r == flags.byte(),
    {
        (if flags.pgm {
            0x10u8
        } else {
            0x00u8
        }) | (if flags.stim {
            0x08u8
        } else {
            0x00u8
        }) | (if flags.daq {
            0x04u8
        } else {
            0x00u8
        }) | (if flags.cal_page {
            0x01u8
        } else {
            0x00u8
        })
    }
}

impl vstd::std_specs::convert::FromSpecImpl<XcpResourceFlags> for u8 {
    open spec fn obeys_from_spec() -> bool {
        true
    }

    open spec fn from_spec(flags: XcpResourceFlags) -> u8 {
        flags.byte()
    }
}

/// Encoding a set of resource flags and reading the byte back gives the same
/// flags, for each of the sixteen sets.
pub proof fn resource_flags_round_trip(flags: XcpResourceFlags)
    ensures
        XcpResourceFlags::of_byte(flags.byte()) == flags,
        flags.byte() & RESOURCE_MASK == flags.byte(),
{
    let (c, d, s, p) = (flags.cal_page, flags.daq, flags.stim, flags.pgm);
    let b = flags.byte();
    assert(b == (if p { 0x10u8 } else { 0u8 }) | (if s { 0x08u8 } else { 0u8 }) | (if d {
        0x04u8
    } else {
        0u8
    }) | (if c { 0x01u8 } else { 0u8 }));
    assert((b & 0x01 != 0) == c && (b & 0x04 != 0) == d && (b & 0x08 != 0) == s && (b & 0x10
        != 0) == p && b & 0x1D == b) by (bit_vector)
        requires
            b == (if p { 0x10u8 } else { 0u8 }) | (if s { 0x08u8 } else { 0u8 }) | (if d {
                0x04u8
            } else {
                0u8
            }) | (if c { 0x01u8 } else { 0u8 }),
    ;
}

/// Reading the flags of any of the 256 bytes and encoding them again gives
/// the byte with its unused bits cleared.
pub proof fn resource_byte_round_trip(b: u8)
    ensures
        XcpResourceFlags::of_byte(b).byte() == b & RESOURCE_MASK,
{
    let f = XcpResourceFlags::of_byte(b);
    assert(((if b & 0x10 != 0 { 0x10u8 } else { 0u8 }) | (if b & 0x08 != 0 { 0x08u8 } else {
        0u8
    }) | (if b & 0x04 != 0 { 0x04u8 } else { 0u8 }) | (if b & 0x01 != 0 { 0x01u8 } else {
        0u8
    })) == b & 0x1D) by (bit_vector);
}

/// The basic communication mode byte returned by Connect: bit 0 byte order,
/// bits 2..1 address granularity, bit 6 slave block mode, bit 7 optional
/// commands. The library carries it unchanged.
#[derive(Debug, PartialEq, Eq, Structural, Clone, Copy)]
pub struct XcpCommModeBasic(pub u8);

impl XcpCommModeBasic {
    /// Bit 0: byte order of the slave.
    pub fn byte_order(&self) -> (r: bool)
        ensures
            r == (self.0 & 0x01 != 0),
    {
        self.0 & 0x01 != 0
    }

    /// Bits 2..1: address granularity.
    pub fn address_granularity(&self) -> (r: u8)
        ensures
            r == (self.0 >> 1u8) & 0x03,
            r < 4,
    {
        let b = self.0;
        assert((b >> 1u8) & 0x03 < 4) by (bit_vector);
        (b >> 1u8) & 0x03
    }

    /// Bit 6: slave block mode available.
    pub fn slave_block_mode(&self) -> (r: bool)
        ensures
            r == (self.0 & 0x40 != 0),
    {
        self.0 & 0x40 != 0
    }

    /// Bit 7: optional communication mode information available.
    pub fn optional(&self) -> (r: bool)
        ensures
            r == (self.0 & 0x80 != 0),
    {
        self.0 & 0x80 != 0
    }

    /// Sets bit 0 and keeps the others.
    pub fn set_byte_order(&mut self, value: bool)
        ensures
            final(self).0 == (old(self).0 & 0xFE) | (if value { 0x01u8 } else { 0u8 }),
    {
        self.0 = (self.0 & 0xFE) | (if value {
            0x01u8
        } else {
            0u8
        });
    }

    /// Sets bits 2..1 from the low two bits of `value` and keeps the others.
    pub fn set_address_granularity(&mut self, value: u8)
        ensures
            final(self).0 == (old(self).0 & 0xF9) | ((value & 0x03) << 1u8),
    {
        self.0 = (self.0 & 0xF9) | ((value & 0x03) << 1u8);
    }

    /// Sets bit 6 and keeps the others.
    pub fn set_slave_block_mode(&mut self, value: bool)
        ensures
            final(self).0 == (old(self).0 & 0xBF) | (if value { 0x40u8 } else { 0u8 }),
    {
        self.0 = (self.0 & 0xBF) | (if value {
            0x40u8
        } else {
            0u8
        });
    }

    /// Sets bit 7 and keeps the others.
    pub fn set_optional(&mut self, value: bool)
        ensures
            final(self).0 == (old(self).0 & 0x7F) | (if value { 0x80u8 } else { 0u8 }),
    {
        self.0 = (self.0 & 0x7F) | (if value {
            0x80u8
        } else {
            0u8
        });
    }
}

/// Each field of the communication mode byte is read back as it was set, and
/// setting it leaves the bits of the other fields as they were.
pub proof fn comm_mode_fields_round_trip(b: u8, order: bool, granularity: u8, block: bool, optional: bool)
    ensures
        ({
            let o = (b & 0xFE) | (if order { 0x01u8 } else { 0u8 });
            &&& (o & 0x01 != 0) == order
            &&& o & 0xFE == b & 0xFE
        }),
        ({
            let g = (b & 0xF9) | ((granularity & 0x03) << 1u8);
            &&& (g >> 1u8) & 0x03 == granularity & 0x03
            &&& g & 0xF9 == b & 0xF9
        }),
        ({
            let s = (b & 0xBF) | (if block { 0x40u8 } else { 0u8 });
            &&& (s & 0x40 != 0) == block
            &&& s & 0xBF == b & 0xBF
        }),
        ({
            let p = (b & 0x7F) | (if optional { 0x80u8 } else { 0u8 });
            &&& (p & 0x80 != 0) == optional
            &&& p & 0x7F == b & 0x7F
        }),
{
    let one: u8 = if order { 0x01u8 } else { 0u8 };
    assert(((b & 0xFE) | one) & 0x01 != 0 <==> one == 0x01u8) by (bit_vector)
        requires
            one == 0x01u8 || one == 0u8,
    ;
    assert(((b & 0xFE) | one) & 0xFE == b & 0xFE) by (bit_vector)
        requires
            one == 0x01u8 || one == 0u8,
    ;
    assert(((((b & 0xF9) | ((granularity & 0x03) << 1u8)) >> 1u8) & 0x03 == granularity & 0x03)
        && (((b & 0xF9) | ((granularity & 0x03) << 1u8)) & 0xF9 == b & 0xF9)) by (bit_vector);
    let six: u8 = if block { 0x40u8 } else { 0u8 };
    assert((((b & 0xBF) | six) & 0x40 != 0 <==> six == 0x40u8) && ((b & 0xBF) | six) & 0xBF == b
        & 0xBF) by (bit_vector)
        requires
            six == 0x40u8 || six == 0u8,
    ;
    let seven: u8 = if optional { 0x80u8 } else { 0u8 };
    assert((((b & 0x7F) | seven) & 0x80 != 0 <==> seven == 0x80u8) && ((b & 0x7F) | seven) & 0x7F
        == b & 0x7F) by (bit_vector)
        requires
            seven == 0x80u8 || seven == 0u8,
    ;
}

impl From<XcpCommModeBasic> for u8 {
    fn from(v: XcpCommModeBasic) -> (r: u8)
        ensures
            r == v.0,
    {
        v.0
    }
}

impl vstd::std_specs::convert::FromSpecImpl<XcpCommModeBasic> for u8 {
    open spec fn obeys_from_spec() -> bool {
        true
    }

    open spec fn from_spec(v: XcpCommModeBasic) -> u8 {
        v.0
    }
}

/// XCP "Connect" command structure.
#[derive(Debug, PartialEq, Eq, Structural, Clone, Copy)]
pub struct ConnectCommand {
    pub mode: ConnectMode,
}

impl XcpCommand for ConnectCommand {
    open spec fn encoding(&self) -> Seq<u8> {
        seq![XcpCommandCode::Connect.code_of(), self.mode.byte()]
    }

    open spec fn code(&self) -> XcpCommandCode {
        XcpCommandCode::Connect
    }

    fn to_can_frame(&self) -> (r: Vec<u8>) {
        let mut frame_data = Vec::<u8>::new();
        frame_data.push(self.get_code().to_code());
        frame_data.push(self.mode.to_byte());
        assert(frame_data@ =~= self.encoding());
        frame_data
    }

    fn get_code(&self) -> (r: XcpCommandCode) {
        XcpCommandCode::Connect
    }
}

/// XCP "Connect" response structure.
#[derive(Debug, PartialEq, Eq, Structural, Clone, Copy)]
pub struct ConnectResponse {
    pub resource: XcpResourceFlags,
    pub comm_mode_basic: XcpCommModeBasic,
    pub max_cto: u8,
    pub max_dto: u8,
    pub protocol_version: u8,
    pub transport_version: u8,
}

impl ConnectResponse {
    /// The positive payload that carries this response; byte 5 holds the
    /// protocol version, read for the transport version too.
    pub open spec fn wire(self) -> Seq<u8> {
        seq![
            0xFFu8,
            self.resource.byte(),
            self.comm_mode_basic.0,
            self.max_cto,
            self.max_dto,
            self.protocol_version,
        ]
    }
}

impl XcpResponse for ConnectResponse {
    open spec fn min_frame_len() -> nat {
        6
    }

    open spec fn decoded_from(&self, frame: Seq<u8>) -> bool {
        &&& frame.len() >= 6
        &&& self.resource == XcpResourceFlags::of_byte(frame[1])
        &&& self.comm_mode_basic == XcpCommModeBasic(frame[2])
        &&& self.max_cto == frame[3]
        &&& self.max_dto == frame[4]
        &&& self.protocol_version == frame[5]
        &&& self.transport_version == frame[5]
    }

    fn required_len() -> (r: usize) {
        6
    }

    fn from_can_frame(can_frame: &[u8]) -> (r: ConnectResponse) {
        ConnectResponse {
            resource: XcpResourceFlags::from(can_frame[1]),
            comm_mode_basic: XcpCommModeBasic(can_frame[2]),
            max_cto: can_frame[3],
            max_dto: can_frame[4],
            protocol_version: can_frame[5],
            transport_version: can_frame[5],
        }
    }
}

/// Another name for the Connect command.
pub type XcpConnectCommand = ConnectCommand;

/// XCP "Get Seed" command structure.
#[derive(Debug, PartialEq, Eq, Structural, Clone, Copy)]
pub struct GetSeedCommand {
    pub mode: GetSeedMode,
    pub resource: XcpResourceFlags,
}

impl XcpCommand for GetSeedCommand {
    open spec fn encoding(&self) -> Seq<u8> {
        seq![XcpCommandCode::GetSeed.code_of(), self.mode.byte(), self.resource.byte()]
    }

    open spec fn code(&self) -> XcpCommandCode {
        XcpCommandCode::GetSeed
    }

    fn to_can_frame(&self) -> (r: Vec<u8>) {
        let mut frame_data = Vec::<u8>::new();
        frame_data.push(self.get_code().to_code());
        frame_data.push(self.mode.to_byte());
        frame_data.push(u8::from(self.resource));
        assert(frame_data@ =~= self.encoding());
        frame_data
    }

    fn get_code(&self) -> (r: XcpCommandCode) {
        XcpCommandCode::GetSeed
    }
}

/// XCP "Get Seed" response structure.
#[derive(Debug, Clone)]
pub struct GetSeedResponse {
    pub requested_resource_is_protected: bool,
    pub remaining_length: u8,
    pub seed_data: Vec<u8>,
}

impl GetSeedResponse {
    /// The positive payload that carries this response.
    pub open spec fn wire(self) -> Seq<u8> {
        seq![0xFFu8, self.remaining_length] + self.seed_data@
    }
}

impl XcpResponse for GetSeedResponse {
    open spec fn min_frame_len() -> nat {
        2
    }

    open spec fn decoded_from(&self, frame: Seq<u8>) -> bool {
        &&& frame.len() >= 2
        &&& self.requested_resource_is_protected == (frame[1] != 0)
        &&& self.remaining_length == frame[1]
        &&& self.seed_data@ == frame.subrange(2, frame.len() as int)
    }

    fn required_len() -> (r: usize) {
        2
    }

    fn from_can_frame(can_frame: &[u8]) -> (r: GetSeedResponse) {
        GetSeedResponse {
            requested_resource_is_protected: can_frame[1] != 0,
            remaining_length: can_frame[1],
            seed_data: slice_to_vec(slice_subrange(can_frame, 2, can_frame.len())),
        }
    }
}

/// Another name for the Get-Seed command.
pub type XcpGetSeedCommand = GetSeedCommand;

/// Another name for the Get-Seed response.
pub type XcpGetSeedResponse = GetSeedResponse;

/// XCP "Unlock" command structure
#[derive(Debug, Clone)]
pub struct UnlockCommand {
    pub remaining_length: u8,
    pub key_data: Vec<u8>,
}

impl XcpCommand for UnlockCommand {
    open spec fn encoding(&self) -> Seq<u8> {
        seq![XcpCommandCode::Unlock.code_of(), self.remaining_length] + self.key_data@
    }

    open spec fn code(&self) -> XcpCommandCode {
        XcpCommandCode::Unlock
    }

    fn to_can_frame(&self) -> (r: Vec<u8>) {
        let mut frame_data = Vec::<u8>::new();
        frame_data.push(self.get_code().to_code());
        frame_data.push(self.remaining_length);
        let mut i: usize = 0;
        while i < self.key_data.len()
            invariant
                i <= self.key_data@.len(),
                frame_data@ == seq![XcpCommandCode::Unlock.code_of(), self.remaining_length]
                    + self.key_data@.subrange(0, i as int),
            decreases self.key_data.len() - i,
        {
            frame_data.push(self.key_data[i]);
            i = i + 1;
            assert(self.key_data@.subrange(0, i as int) =~= self.key_data@.subrange(
                0,
                i - 1,
            ).push(self.key_data@[i - 1]));
        }
        assert(self.key_data@.subrange(0, i as int) =~= self.key_data@);
        frame_data
    }

    fn get_code(&self) -> (r: XcpCommandCode) {
        XcpCommandCode::Unlock
    }
}

/// XCP "Unlock" response structure: the resources that are now unlocked.
#[derive(Debug, PartialEq, Eq, Structural, Clone, Copy)]
pub struct UnlockResponse {
    pub resource: XcpResourceFlags,
}

impl UnlockResponse {
    /// The positive payload that carries this response.
    pub open spec fn wire(self) -> Seq<u8> {
        seq![0xFFu8, self.resource.byte()]
    }
}

impl XcpResponse for UnlockResponse {
    open spec fn min_frame_len() -> nat {
        2
    }

    open spec fn decoded_from(&self, frame: Seq<u8>) -> bool {
        &&& frame.len() >= 2
        &&& self.resource == XcpResourceFlags::of_byte(frame[1])
    }

    fn required_len() -> (r: usize) {
        2
    }

    fn from_can_frame(frame: &[u8]) -> (r: UnlockResponse) {
        UnlockResponse { resource: XcpResourceFlags::from(frame[1]) }
    }
}

/// A negative response: the peer rejected the command with an error code.
#[derive(Debug, PartialEq, Eq, Structural, Clone, Copy)]
pub struct NegativeResponse {
    pub error_code: XcpErrorCode,
}

impl NegativeResponse {
    /// The negative payload that carries this response.
    pub open spec fn wire(self) -> Seq<u8> {
        seq![0xFEu8, self.error_code.code_of()]
    }
}

impl XcpResponse for NegativeResponse {
    open spec fn min_frame_len() -> nat {
        2
    }

    open spec fn decoded_from(&self, frame: Seq<u8>) -> bool {
        &&& frame.len() >= 2
        &&& is_error_code(frame[1]) ==> self.error_code.code_of() == frame[1]
        &&& !is_error_code(frame[1]) ==> self.error_code == XcpErrorCode::ErrUnknown
    }

    fn required_len() -> (r: usize) {
        2
    }

    fn from_can_frame(frame: &[u8]) -> (r: Self) {
        NegativeResponse { error_code: XcpErrorCode::from_code(frame[1]) }
    }
}

/// Any decoded response of the exchanges this library drives.
pub enum XcpResponseType {
    PositiveConnectResponse(XcpResponseFrame<ConnectResponse>),
    PositiveGetSeedResponse(XcpResponseFrame<GetSeedResponse>),
    PositiveUnlockResponse(XcpResponseFrame<UnlockResponse>),
    NegativeResponse(XcpResponseFrame<NegativeResponse>),
}

/// A Connect command is read back from its payload: two commands with the
/// same payload are the same command.
pub proof fn connect_command_round_trip(a: ConnectCommand, b: ConnectCommand)
    requires
        a.encoding() == b.encoding(),
    ensures
        a == b,
{
    assert(a.encoding()[1] == b.encoding()[1]);
}

/// A Get-Seed command is read back from its payload: two commands with the
/// same payload are the same command.
pub proof fn get_seed_command_round_trip(a: GetSeedCommand, b: GetSeedCommand)
    requires
        a.encoding() == b.encoding(),
    ensures
        a == b,
{
    assert(a.encoding()[1] == b.encoding()[1]);
    assert(a.encoding()[2] == b.encoding()[2]);
    resource_flags_round_trip(a.resource);
    resource_flags_round_trip(b.resource);
}

/// An Unlock command is read back from its payload: two commands with the
/// same payload carry the same remaining length and the same key bytes.
pub proof fn unlock_command_round_trip(a: UnlockCommand, b: UnlockCommand)
    requires
        a.encoding() == b.encoding(),
    ensures
        a.remaining_length == b.remaining_length,
        a.key_data@ == b.key_data@,
{
    assert(a.encoding()[1] == a.remaining_length);
    assert(b.encoding()[1] == b.remaining_length);
    assert(a.key_data@ =~= a.encoding().subrange(2, a.encoding().len() as int));
    assert(b.key_data@ =~= b.encoding().subrange(2, b.encoding().len() as int));
}

/// Decoding the payload of a Connect response gives back every field; the
/// transport version is read from the byte of the protocol version.
pub proof fn connect_response_round_trip(x: ConnectResponse, r: ConnectResponse)
    requires
        x.transport_version == x.protocol_version,
        r.decoded_from(x.wire()),
    ensures
        x.wire().len() >= ConnectResponse::min_frame_len(),
        r == x,
{
    resource_flags_round_trip(x.resource);
}

/// Decoding the payload of a Get-Seed response gives back its remaining
/// length and seed bytes.
pub proof fn get_seed_response_round_trip(x: GetSeedResponse, r: GetSeedResponse)
    requires
        r.decoded_from(x.wire()),
    ensures
        x.wire().len() >= GetSeedResponse::min_frame_len(),
        r.remaining_length == x.remaining_length,
        r.seed_data@ == x.seed_data@,
        r.requested_resource_is_protected == (x.remaining_length != 0),
{
    assert(x.wire().subrange(2, x.wire().len() as int) =~= x.seed_data@);
}

/// Decoding the payload of an Unlock response gives back its resource flags.
pub proof fn unlock_response_round_trip(x: UnlockResponse, r: UnlockResponse)
    requires
        r.decoded_from(x.wire()),
    ensures
        x.wire().len() >= UnlockResponse::min_frame_len(),
        r == x,
{
    resource_flags_round_trip(x.resource);
}

/// Decoding the payload of a negative response gives back its error code.
pub proof fn negative_response_round_trip(x: NegativeResponse, r: NegativeResponse)
    requires
        r.decoded_from(x.wire()),
    ensures
        x.wire().len() >= NegativeResponse::min_frame_len(),
        r == x,
{
    crate::frame::error_code_round_trip(x.error_code, r.error_code);
}

} // verus!
