use arbiter_client::client::{
    check_reply, Client, ClientState, TickOutcome, HEARTBEAT_INTERVAL_MS, REPLY_TIMEOUT_MS,
};
use arbiter_client::envelope::{build_header, finalize, ProtocolError, ACK, PING, REGISTER};

fn reply_of_type(message_id: u8) -> Vec<Vec<u8>> {
    finalize(build_header(b"CLIENT", message_id), vec![])
}

fn request_type(frames: &Vec<Vec<u8>>) -> u8 {
    frames[5][1]
}

#[test]
fn new_client_is_unregistered() {
    let c = Client::new(b"ARBITER".to_vec());
    assert_eq!(c.state(), ClientState::Unregistered);
    assert_eq!(c.peer, b"ARBITER".to_vec());
}

#[test]
fn request_is_register_then_ping() {
    let mut c = Client::new(b"ARBITER".to_vec());
    let r = c.request();
    assert_eq!(
        r,
        vec![b"ARBITER".to_vec(), vec![], vec![], vec![], vec![], vec![0u8, 0u8], vec![], vec![]]
    );
    c.complete_tick(true, Some(reply_of_type(ACK))).unwrap();
    let p = c.request();
    assert_eq!(p[5], vec![0u8, 2u8]);
    assert_eq!(p.len(), 8);
}

#[test]
fn registration_liveness_one_tick() {
    let mut c = Client::new(b"ARBITER".to_vec());
    let sent = c.request();
    assert_eq!(request_type(&sent), REGISTER);
    let o = c.complete_tick(true, Some(reply_of_type(ACK))).unwrap();
    assert_eq!(o, TickOutcome::Registered);
    assert_eq!(c.state(), ClientState::Registered);
    assert_eq!(o.pause_ms(), 0);
}

#[test]
fn registration_retry_three_registers() {
    let mut c = Client::new(b"ARBITER".to_vec());
    let replies = vec![None, None, Some(reply_of_type(ACK))];
    let mut registers = 0;
    for reply in replies {
        assert_eq!(c.state(), ClientState::Unregistered);
        let sent = c.request();
        if request_type(&sent) == REGISTER {
            registers += 1;
        }
        let o = c.complete_tick(true, reply).unwrap();
        assert_eq!(o.pause_ms(), 0);
    }
    assert_eq!(registers, 3);
    assert_eq!(c.state(), ClientState::Registered);
}

#[test]
fn registration_ignores_wrong_or_invalid_replies() {
    let mut c = Client::new(b"ARBITER".to_vec());
    let o = c.complete_tick(true, Some(reply_of_type(PING))).unwrap();
    assert_eq!(o, TickOutcome::Failed(ProtocolError::UnexpectedTypeError));
    assert_eq!(c.state(), ClientState::Unregistered);
    let o = c.complete_tick(true, Some(vec![vec![1u8]])).unwrap();
    assert_eq!(o, TickOutcome::Failed(ProtocolError::SizeError));
    let o = c.complete_tick(true, Some(reply_of_type(9))).unwrap();
    assert_eq!(o, TickOutcome::Failed(ProtocolError::UnsupportedTypeError));
    assert_eq!(c.state(), ClientState::Unregistered);
    assert_eq!(request_type(&c.request()), REGISTER);
}

#[test]
fn heartbeat_failure_keeps_registration() {
    let mut c = Client::new(b"ARBITER".to_vec());
    c.complete_tick(true, Some(reply_of_type(ACK))).unwrap();
    let o = c.complete_tick(true, None).unwrap();
    assert_eq!(o, TickOutcome::Failed(ProtocolError::TimeoutError));
    assert_eq!(o.pause_ms(), 0);
    assert_eq!(c.state(), ClientState::Registered);
    assert_eq!(request_type(&c.request()), PING);
    let mut bad = reply_of_type(ACK);
    bad[5] = vec![0u8];
    let o = c.complete_tick(true, Some(bad)).unwrap();
    assert_eq!(o, TickOutcome::Failed(ProtocolError::MalformedHeaderError));
    assert_eq!(c.state(), ClientState::Registered);
}

#[test]
fn heartbeat_success_pauses() {
    let mut c = Client::new(b"ARBITER".to_vec());
    c.complete_tick(true, Some(reply_of_type(ACK))).unwrap();
    let o = c.complete_tick(true, Some(reply_of_type(ACK))).unwrap();
    assert_eq!(o, TickOutcome::Acknowledged);
    assert_eq!(o.pause_ms(), 1000);
    assert_eq!(HEARTBEAT_INTERVAL_MS, 1000);
    assert_eq!(REPLY_TIMEOUT_MS, 1000);
}

#[test]
fn send_failure_is_fatal_and_keeps_state() {
    let mut c = Client::new(b"ARBITER".to_vec());
    let r = c.complete_tick(false, Some(reply_of_type(ACK)));
    assert_eq!(r, Err(ProtocolError::TransportSendError));
    assert_eq!(c.state(), ClientState::Unregistered);
}

#[test]
fn check_reply_outcomes() {
    assert_eq!(check_reply(None, ACK).err(), Some(ProtocolError::TimeoutError));
    assert_eq!(check_reply(Some(reply_of_type(ACK)), ACK).unwrap().message_type, 3);
    assert_eq!(
        check_reply(Some(reply_of_type(ACK)), PING).err(),
        Some(ProtocolError::UnexpectedTypeError)
    );
}

#[test]
fn scenario_register_ping_pause_ping() {
    let mut c = Client::new(b"ARBITER".to_vec());
    let mut sent_types = Vec::new();
    let mut pauses = Vec::new();

    let r = c.request();
    assert_eq!(r[0], b"ARBITER".to_vec());
    sent_types.push(request_type(&r));
    let o = c.complete_tick(true, Some(reply_of_type(ACK))).unwrap();
    assert_eq!(c.state(), ClientState::Registered);
    pauses.push(o.pause_ms());

    let r = c.request();
    sent_types.push(request_type(&r));
    let o = c.complete_tick(true, Some(reply_of_type(ACK))).unwrap();
    assert_eq!(o, TickOutcome::Acknowledged);
    pauses.push(o.pause_ms());

    let r = c.request();
    sent_types.push(request_type(&r));

    assert_eq!(sent_types, vec![0u8, 2u8, 2u8]);
    assert_eq!(pauses, vec![0u64, 1000u64]);
}
