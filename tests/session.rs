use socketcan::{EmbeddedFrame, Id, StandardId};
use xcp_master::frame::{XcpErrorCode, XcpResponseFrame};
use xcp_master::master::{
    FrameError, KeyTransfer, Operation, Outcome, ProtocolViolation, Reception, SeedStep, SeedTransfer,
    SessionState, UnlockSetupError, UnlockStep, XcpSession,
};
use xcp_master::xcp_command::{
    ConnectResponse, GetSeedResponse, NegativeResponse, UnlockResponse, XcpResource,
    XcpResourceFlags,
};
use xcp_master::frame::XcpCommandFrame;
use xcp_master::xcp_command::{ConnectCommand, ConnectMode, UnlockCommand};

const RX: u32 = 0x7E1;

fn session() -> XcpSession {
    XcpSession { tx_id: 0x7E0, rx_id: RX, max_cto: 8, max_dto: 8 }
}

#[test]
fn frames_of_other_identifiers_are_ignored() {
    let s = session();
    let r = s.receive_frame::<ConnectResponse>(0x100, &[0xFF, 0, 0, 8, 8, 1]);
    assert!(matches!(r, Reception::Ignored));
}

#[test]
fn unknown_response_code_is_a_violation() {
    let s = session();
    let r = s.receive_frame::<UnlockResponse>(RX, &[0xAA, 0x10]);
    assert!(matches!(r, Reception::Violation(ProtocolViolation::UnknownResponseCode(0xAA))));
}

#[test]
fn short_frames_are_violations() {
    let s = session();
    let empty = s.receive_frame::<UnlockResponse>(RX, &[]);
    assert!(matches!(empty, Reception::Violation(ProtocolViolation::Truncated(0))));
    let short = s.receive_frame::<ConnectResponse>(RX, &[0xFF, 0x15, 0x01]);
    assert!(matches!(short, Reception::Violation(ProtocolViolation::Truncated(3))));
    let neg = s.receive_frame::<ConnectResponse>(RX, &[0xFE]);
    assert!(matches!(neg, Reception::Violation(ProtocolViolation::Truncated(1))));
}

#[test]
fn negative_reply_is_decoded() {
    let s = session();
    match s.receive_frame::<ConnectResponse>(RX, &[0xFE, 0x25]) {
        Reception::Reply(Err(e)) => assert_eq!(e.data.error_code, XcpErrorCode::ErrAccessLocked),
        other => panic!("unexpected {:?}", other),
    }
    match s.receive_frame::<ConnectResponse>(RX, &[0xFE, 0x99]) {
        Reception::Reply(Err(e)) => assert_eq!(e.data.error_code, XcpErrorCode::ErrUnknown),
        other => panic!("unexpected {:?}", other),
    }
}

#[test]
fn connect_normal_reply() {
    let s = session();
    let req = XcpCommandFrame { data: ConnectCommand { mode: ConnectMode::Normal } };
    let frame = s.request_frame(&req).unwrap();
    assert_eq!(frame.data(), &[0xFF, 0x00]);
    match s.receive_frame::<ConnectResponse>(RX, &[0xFF, 0x15, 0x01, 0x08, 0x08, 0x01, 0x01]) {
        Reception::Reply(Ok(r)) => {
            let r = r.data;
            assert!(r.resource.pgm && r.resource.cal_page);
            assert_eq!(u8::from(r.comm_mode_basic), 0x01);
            assert_eq!(r.max_cto, 8);
            assert_eq!(r.max_dto, 8);
            assert_eq!(r.protocol_version, 1);
        },
        other => panic!("unexpected {:?}", other),
    }
}

#[test]
fn request_frame_carries_identifier_and_payload() {
    let s = session();
    let req = XcpCommandFrame {
        data: UnlockCommand { remaining_length: 2, key_data: vec![0xAB, 0xCD] },
    };
    let frame = s.request_frame(&req).unwrap();
    assert_eq!(frame.id(), Id::Standard(StandardId::new(0x7E0).unwrap()));
    assert_eq!(frame.data(), &[0xF7, 0x02, 0xAB, 0xCD]);
}

#[test]
fn request_frame_errors() {
    let bad_id = XcpSession { tx_id: 0x800, rx_id: RX, max_cto: 8, max_dto: 8 };
    let req = XcpCommandFrame { data: ConnectCommand { mode: ConnectMode::Normal } };
    assert_eq!(bad_id.request_frame(&req).unwrap_err(), FrameError::InvalidIdentifier(0x800));
    let long = XcpCommandFrame {
        data: UnlockCommand { remaining_length: 7, key_data: vec![0; 7] },
    };
    assert_eq!(session().request_frame(&long).unwrap_err(), FrameError::PayloadTooLong(9));
    let max = XcpSession { tx_id: 0x7FF, rx_id: RX, max_cto: 8, max_dto: 8 };
    assert!(max.request_frame(&req).is_ok());
}

/// Runs a Get-Seed read against replies given as raw payloads; returns the
/// payloads sent and the final step.
fn run_seed(replies: &[Vec<u8>], resource: XcpResourceFlags) -> (Vec<Vec<u8>>, SeedStep, Vec<u8>) {
    let s = session();
    let mut t = SeedTransfer::new(resource);
    let mut sent = Vec::new();
    for reply in replies {
        sent.push(t.request().to_can_frame());
        let reply = match s.receive_frame::<GetSeedResponse>(RX, reply) {
            Reception::Reply(r) => r,
            other => panic!("unexpected {:?}", other),
        };
        match t.on_response(reply) {
            SeedStep::Continue => continue,
            step => return (sent, step, t.into_seed()),
        }
    }
    panic!("the peer ran out of replies");
}

#[test]
fn get_seed_in_three_chunks() {
    let replies = vec![
        vec![0xFF, 8, 1, 2, 3],
        vec![0xFF, 5, 4, 5, 6],
        vec![0xFF, 2, 7, 8],
        vec![0xFF, 0],
    ];
    let (sent, step, seed) = run_seed(&replies, XcpResource::Pgm.into());
    assert!(matches!(step, SeedStep::Complete));
    assert_eq!(seed, vec![1, 2, 3, 4, 5, 6, 7, 8]);
    assert_eq!(sent.len(), 3);
    assert_eq!(sent[0], vec![0xF8, 0x00, 0x10]);
    assert_eq!(sent[1], vec![0xF8, 0x01, 0x10]);
    assert_eq!(sent[2], vec![0xF8, 0x01, 0x10]);
}

#[test]
fn get_seed_rejected_midway() {
    let replies = vec![vec![0xFF, 8, 1, 2, 3], vec![0xFE, 0x29], vec![0xFF, 5, 4, 5, 6]];
    let (sent, step, _) = run_seed(&replies, XcpResourceFlags::from(0xFFu8));
    assert_eq!(sent.len(), 2);
    match step {
        SeedStep::Rejected(e) => assert_eq!(e.data.error_code, XcpErrorCode::ErrSequence),
        other => panic!("unexpected {:?}", other),
    }
}

#[test]
fn get_seed_single_chunk() {
    let (sent, step, seed) = run_seed(&[vec![0xFF, 4, 9, 8, 7, 6]], XcpResource::Daq.into());
    assert!(matches!(step, SeedStep::Complete));
    assert_eq!(sent, vec![vec![0xF8, 0x00, 0x04]]);
    assert_eq!(seed, vec![9, 8, 7, 6]);
}

/// Runs an Unlock write against replies given as raw payloads; returns the
/// payloads sent and the final step.
fn run_unlock(key: Vec<u8>, max_cto: usize, replies: &[Vec<u8>]) -> (Vec<Vec<u8>>, UnlockStep) {
    let s = session();
    let mut t = KeyTransfer::new(key, max_cto).unwrap();
    let mut sent = Vec::new();
    for reply in replies {
        sent.push(t.request().to_can_frame());
        let reply = match s.receive_frame::<UnlockResponse>(RX, reply) {
            Reception::Reply(r) => r,
            other => panic!("unexpected {:?}", other),
        };
        match t.on_response(reply) {
            UnlockStep::Continue => continue,
            step => return (sent, step),
        }
    }
    panic!("the peer ran out of replies");
}

#[test]
fn unlock_fourteen_byte_key_in_three_frames() {
    let key: Vec<u8> = (1..=14).collect();
    let replies = vec![vec![0xFF, 0x00], vec![0xFF, 0x00], vec![0xFF, 0x10], vec![0xFF, 0x1D]];
    let (sent, step) = run_unlock(key, 8, &replies);
    assert_eq!(sent.len(), 3);
    assert_eq!(sent[0], vec![0xF7, 14, 1, 2, 3, 4, 5, 6]);
    assert_eq!(sent[1], vec![0xF7, 8, 7, 8, 9, 10, 11, 12]);
    assert_eq!(sent[2], vec![0xF7, 2, 13, 14]);
    match step {
        UnlockStep::Unlocked(r) => {
            assert!(r.data.resource.pgm);
            assert!(!r.data.resource.cal_page);
        },
        other => panic!("unexpected {:?}", other),
    }
}

#[test]
fn unlock_rejected_on_first_frame() {
    let key: Vec<u8> = (1..=14).collect();
    let replies = vec![vec![0xFE, 0x24], vec![0xFF, 0x00]];
    let (sent, step) = run_unlock(key, 8, &replies);
    assert_eq!(sent.len(), 1);
    match step {
        UnlockStep::Rejected(e) => assert_eq!(e.data.error_code, XcpErrorCode::ErrAccessDenied),
        other => panic!("unexpected {:?}", other),
    }
}

#[test]
fn unlock_empty_key_sends_one_frame() {
    let (sent, step) = run_unlock(Vec::new(), 8, &[vec![0xFF, 0x01]]);
    assert_eq!(sent, vec![vec![0xF7, 0]]);
    assert!(matches!(step, UnlockStep::Unlocked(_)));
}

#[test]
fn unlock_exact_multiple_of_capacity() {
    let key: Vec<u8> = (1..=12).collect();
    let replies = vec![vec![0xFF, 0x00], vec![0xFF, 0x10]];
    let (sent, _) = run_unlock(key, 8, &replies);
    assert_eq!(sent, vec![vec![0xF7, 12, 1, 2, 3, 4, 5, 6], vec![0xF7, 6, 7, 8, 9, 10, 11, 12]]);
}

#[test]
fn unlock_setup_errors() {
    assert_eq!(KeyTransfer::new(vec![1, 2], 2).unwrap_err(), UnlockSetupError::MaxCtoTooSmall(2));
    assert_eq!(KeyTransfer::new(vec![0; 256], 8).unwrap_err(), UnlockSetupError::KeyTooLong(256));
    assert!(KeyTransfer::new(vec![0; 255], 3).is_ok());
}

#[test]
fn negative_reply_is_handed_back_unchanged() {
    let e = XcpResponseFrame { data: NegativeResponse { error_code: XcpErrorCode::ErrCmdBusy } };
    let mut t = SeedTransfer::new(XcpResource::CalPage.into());
    match t.on_response(Err(e)) {
        SeedStep::Rejected(r) => assert_eq!(r.data.error_code, XcpErrorCode::ErrCmdBusy),
        other => panic!("unexpected {:?}", other),
    }
    assert!(t.into_seed().is_empty());
}

#[test]
fn session_state_guards_the_sequence() {
    let s = SessionState::Disconnected;
    assert!(s.permits(Operation::Connect));
    assert!(!s.permits(Operation::GetSeed));
    assert!(!s.permits(Operation::Unlock));
    assert_eq!(s.after(Operation::Connect, Outcome::Rejected), SessionState::Disconnected);
    assert_eq!(s.after(Operation::Connect, Outcome::Failed), SessionState::Disconnected);
    let c = s.after(Operation::Connect, Outcome::Succeeded);
    assert_eq!(c, SessionState::Connected);
    assert!(c.permits(Operation::GetSeed));
    assert!(!c.permits(Operation::Unlock));
    assert_eq!(c.after(Operation::GetSeed, Outcome::Rejected), SessionState::Connected);
    assert_eq!(c.after(Operation::GetSeed, Outcome::Failed), SessionState::Connected);
    let seeded = c.after(Operation::GetSeed, Outcome::Succeeded);
    assert_eq!(seeded, SessionState::SeedReceived);
    assert!(seeded.permits(Operation::Unlock));
    assert_eq!(seeded.after(Operation::Unlock, Outcome::Failed), SessionState::SeedReceived);
    assert_eq!(seeded.after(Operation::Unlock, Outcome::Succeeded), SessionState::Connected);
    assert_eq!(seeded.after(Operation::Unlock, Outcome::Rejected), SessionState::Connected);
}

#[test]
fn get_seed_stalls_on_empty_chunk() {
    let replies = vec![vec![0xFF, 8, 1, 2, 3], vec![0xFF, 5], vec![0xFF, 5, 4, 5, 6]];
    let (sent, step, seed) = run_seed(&replies, XcpResource::Pgm.into());
    assert_eq!(sent.len(), 2);
    assert!(matches!(step, SeedStep::Stalled));
    assert_eq!(seed, vec![1, 2, 3]);
}

#[test]
fn get_seed_stalls_past_longest_seed() {
    let mut replies = Vec::new();
    for _ in 0..43 {
        replies.push(vec![0xFF, 0xFF, 1, 2, 3, 4, 5, 6]);
    }
    let (sent, step, seed) = run_seed(&replies, XcpResource::Pgm.into());
    assert_eq!(sent.len(), 43);
    assert!(matches!(step, SeedStep::Stalled));
    assert_eq!(seed.len(), 252);
}
