use xcp_master::frame::{
    XcpCommandCode, XcpCommandFrame, XcpErrorCode, XcpResponseCode, XcpResponseFrame,
};
use xcp_master::xcp_command::{
    ConnectCommand, ConnectMode, ConnectResponse, GetSeedCommand, GetSeedMode, GetSeedResponse,
    NegativeResponse, UnlockCommand, UnlockResponse, XcpCommModeBasic, XcpConnectCommand,
    XcpGetSeedCommand, XcpResource, XcpResourceFlags,
};
use xcp_master::frame::XcpCommand;
use xcp_master::frame::XcpResponse;

#[test]
fn command_codes_read_back() {
    assert_eq!(XcpCommandCode::from_code(0xF8), XcpCommandCode::GetSeed);
    assert_eq!(XcpCommandCode::from_code(0xF7), XcpCommandCode::Unlock);
    assert_eq!(XcpCommandCode::from_code(0xFF), XcpCommandCode::Connect);
    assert_eq!(XcpCommandCode::from_code(0xC8), XcpCommandCode::ProgramVerify);
    assert_eq!(XcpCommandCode::from_code(0xC7), XcpCommandCode::Unknown);
    assert_eq!(XcpCommandCode::from_code(0x00), XcpCommandCode::Unknown);
    assert_eq!(XcpCommandCode::Connect.to_code(), 0xFF);
    assert_eq!(XcpCommandCode::GetSeed.to_code(), 0xF8);
    assert_eq!(XcpCommandCode::Unlock.to_code(), 0xF7);
    assert_eq!(XcpCommandCode::Unknown.to_code(), 0x00);
    for b in 0xC8u16..=0xFF {
        let b = b as u8;
        assert_eq!(XcpCommandCode::from_code(b).to_code(), b);
    }
}

#[test]
fn error_code_access_locked_and_unknown() {
    assert_eq!(XcpErrorCode::from_code(0x25), XcpErrorCode::ErrAccessLocked);
    assert_eq!(XcpErrorCode::from_code(0x99), XcpErrorCode::ErrUnknown);
    assert_eq!(XcpErrorCode::from_code(0x00), XcpErrorCode::ErrCmdSynch);
    assert_eq!(XcpErrorCode::from_code(0x2A), XcpErrorCode::ErrDaqConfig);
    assert_eq!(XcpErrorCode::from_code(0x34), XcpErrorCode::ErrSubcmdUnknown);
    assert_eq!(XcpErrorCode::from_code(0x35), XcpErrorCode::ErrUnknown);
    assert_eq!(XcpErrorCode::ErrUnknown.to_code(), 0xFF);
    assert_eq!(XcpErrorCode::ErrAccessLocked.to_code(), 0x25);
}

#[test]
fn error_codes_round_trip_on_every_byte() {
    let mut assigned = 0;
    for b in 0u16..=0xFF {
        let b = b as u8;
        let e = XcpErrorCode::from_code(b);
        if e == XcpErrorCode::ErrUnknown {
            assert!(b != 0x25);
        } else {
            assigned += 1;
            assert_eq!(e.to_code(), b);
        }
        assert_eq!(XcpErrorCode::from_code(e.to_code()), e);
    }
    assert_eq!(assigned, 20);
}

#[test]
fn response_codes() {
    assert_eq!(XcpResponseCode::from_code(0xFF), XcpResponseCode::PositiveResponse);
    assert_eq!(XcpResponseCode::from_code(0xFE), XcpResponseCode::NegativeResponse);
    assert_eq!(XcpResponseCode::from_code(0xAA), XcpResponseCode::UnknownResponse);
    assert_eq!(XcpResponseCode::PositiveResponse.to_code(), 0xFF);
    assert_eq!(XcpResponseCode::NegativeResponse.to_code(), 0xFE);
    assert_eq!(XcpResponseCode::UnknownResponse.to_code(), 0x00);
}

#[test]
fn resource_flags_round_trip_on_every_byte() {
    for b in 0u16..=0xFF {
        let b = b as u8;
        let flags = XcpResourceFlags::from(b);
        assert_eq!(u8::from(flags), b & 0x1D);
        assert_eq!(XcpResourceFlags::from(u8::from(flags)), flags);
    }
}

#[test]
fn resource_flag_bits() {
    let pgm_cal = XcpResourceFlags::from(0x15u8);
    assert!(pgm_cal.cal_page && pgm_cal.daq && !pgm_cal.stim && pgm_cal.pgm);
    assert_eq!(u8::from(XcpResourceFlags::from(XcpResource::CalPage)), 0x01);
    assert_eq!(u8::from(XcpResourceFlags::from(XcpResource::Daq)), 0x04);
    assert_eq!(u8::from(XcpResourceFlags::from(XcpResource::Stim)), 0x08);
    assert_eq!(u8::from(XcpResourceFlags::from(XcpResource::Pgm)), 0x10);
    assert_eq!(u8::from(XcpResourceFlags::default()), 0x00);
}

#[test]
fn comm_mode_basic_bits() {
    let m = XcpCommModeBasic(0xC5);
    assert!(m.byte_order());
    assert_eq!(m.address_granularity(), 2);
    assert!(m.slave_block_mode());
    assert!(m.optional());
    let n = XcpCommModeBasic(0x02);
    assert!(!n.byte_order());
    assert_eq!(n.address_granularity(), 1);
    assert!(!n.slave_block_mode());
    assert!(!n.optional());
    for b in 0u16..=0xFF {
        assert_eq!(u8::from(XcpCommModeBasic(b as u8)), b as u8);
    }
}

#[test]
fn command_encodings() {
    let connect = XcpCommandFrame { data: ConnectCommand { mode: ConnectMode::Normal } };
    assert_eq!(connect.to_can_frame(), vec![0xFF, 0x00]);
    let user: XcpConnectCommand = ConnectCommand { mode: ConnectMode::UserDefined };
    assert_eq!(user.to_can_frame(), vec![0xFF, 0x01]);
    assert_eq!(user.get_code(), XcpCommandCode::Connect);

    let seed: XcpGetSeedCommand = GetSeedCommand {
        mode: GetSeedMode::ContinueSeed,
        resource: XcpResource::Pgm.into(),
    };
    assert_eq!(seed.to_can_frame(), vec![0xF8, 0x01, 0x10]);
    assert_eq!(seed.get_code(), XcpCommandCode::GetSeed);

    let unlock = UnlockCommand { remaining_length: 14, key_data: vec![1, 2, 3, 4, 5, 6] };
    assert_eq!(unlock.to_can_frame(), vec![0xF7, 14, 1, 2, 3, 4, 5, 6]);
    assert_eq!(unlock.get_code(), XcpCommandCode::Unlock);
}

#[test]
fn connect_response_decodes() {
    let payload = [0xFF, 0x15, 0x01, 0x08, 0x08, 0x01, 0x01];
    let r = XcpResponseFrame::<ConnectResponse>::from_can_frame(&payload).data;
    assert!(r.resource.pgm && r.resource.cal_page);
    assert_eq!(r.comm_mode_basic, XcpCommModeBasic(0x01));
    assert_eq!(r.max_cto, 8);
    assert_eq!(r.max_dto, 8);
    assert_eq!(r.protocol_version, 1);
    assert_eq!(r.transport_version, 1);
    assert_eq!(ConnectResponse::required_len(), 6);
}

#[test]
fn get_seed_response_decodes() {
    let r = GetSeedResponse::from_can_frame(&[0xFF, 0x05, 0xA1, 0xA2, 0xA3]);
    assert_eq!(r.remaining_length, 5);
    assert!(r.requested_resource_is_protected);
    assert_eq!(r.seed_data, vec![0xA1, 0xA2, 0xA3]);
    let empty = GetSeedResponse::from_can_frame(&[0xFF, 0x00]);
    assert!(!empty.requested_resource_is_protected);
    assert!(empty.seed_data.is_empty());
}

#[test]
fn unlock_and_negative_responses_decode() {
    let r = UnlockResponse::from_can_frame(&[0xFF, 0x10]);
    assert!(r.resource.pgm && !r.resource.cal_page);
    let n = NegativeResponse::from_can_frame(&[0xFE, 0x25]);
    assert_eq!(n.error_code, XcpErrorCode::ErrAccessLocked);
    let u = NegativeResponse::from_can_frame(&[0xFE, 0x99]);
    assert_eq!(u.error_code, XcpErrorCode::ErrUnknown);
}

#[test]
fn responses_round_trip_through_their_payload() {
    let x = ConnectResponse {
        resource: XcpResourceFlags { cal_page: true, daq: false, stim: true, pgm: false },
        comm_mode_basic: XcpCommModeBasic(0x87),
        max_cto: 8,
        max_dto: 7,
        protocol_version: 3,
        transport_version: 3,
    };
    let wire = [
        0xFF,
        u8::from(x.resource),
        u8::from(x.comm_mode_basic),
        x.max_cto,
        x.max_dto,
        x.protocol_version,
    ];
    assert_eq!(ConnectResponse::from_can_frame(&wire), x);

    let u = UnlockResponse {
        resource: XcpResourceFlags { cal_page: false, daq: true, stim: false, pgm: true },
    };
    assert_eq!(UnlockResponse::from_can_frame(&[0xFF, u8::from(u.resource)]), u);

    let n = NegativeResponse { error_code: XcpErrorCode::ErrSequence };
    assert_eq!(NegativeResponse::from_can_frame(&[0xFE, n.error_code.to_code()]), n);
}

#[test]
fn comm_mode_basic_setters() {
    let mut m = XcpCommModeBasic(0x00);
    m.set_byte_order(true);
    assert_eq!(m.0, 0x01);
    m.set_address_granularity(0x07);
    assert_eq!(m.0, 0x07);
    assert_eq!(m.address_granularity(), 3);
    m.set_slave_block_mode(true);
    m.set_optional(true);
    assert_eq!(m.0, 0xC7);
    m.set_byte_order(false);
    m.set_address_granularity(1);
    assert_eq!(m.0, 0xC2);
    m.set_optional(false);
    assert_eq!(m.0, 0x42);
    assert!(m.slave_block_mode() && !m.optional() && !m.byte_order());
}
