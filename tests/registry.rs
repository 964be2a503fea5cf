use iq_peripheral::brain::{BrainChannel, WriteError, WritePolicy};
use iq_peripheral::registry::{
    advertised_service_uuids, build_application, handle_read, handle_write,
    make_brain_service, make_controller_service, Capabilities, CharacteristicRole, GattError,
    BRAIN_RX_UUID, BRAIN_TX_UUID, BRAIN_UUID, CONTROLLER_UUID, JS_DATA_UUID, JS_RATE_UUID,
};

fn caps(read: bool, write: bool, wwr: bool, notify: bool, indicate: bool) -> Capabilities {
    Capabilities { read, write, write_without_response: wwr, notify, indicate }
}

#[test]
fn advertised_uuids_are_controller_and_brain() {
    let app = build_application();
    let ids = advertised_service_uuids(&app);
    assert_eq!(ids, vec![CONTROLLER_UUID, BRAIN_UUID]);
    assert_ne!(ids[0], ids[1]);
    assert_eq!(CONTROLLER_UUID, 0x08590f7e_db05_467e_8757_72f6faeb13a5);
    assert_eq!(BRAIN_UUID, 0x08590f7e_db05_467e_8757_72f6faeb13d5);
}

#[test]
fn controller_service_matches_table() {
    let s = make_controller_service();
    assert_eq!(s.uuid, CONTROLLER_UUID);
    assert!(s.primary);
    assert_eq!(s.characteristics.len(), 2);
    assert_eq!(s.characteristics[0].uuid, JS_DATA_UUID);
    assert_eq!(s.characteristics[0].role, CharacteristicRole::Telemetry);
    assert_eq!(s.characteristics[0].caps, caps(true, true, true, true, true));
    assert_eq!(s.characteristics[1].uuid, JS_RATE_UUID);
    assert_eq!(s.characteristics[1].caps, caps(false, true, true, false, false));
}

#[test]
fn brain_service_matches_table() {
    let s = make_brain_service();
    assert_eq!(s.uuid, BRAIN_UUID);
    assert!(!s.primary);
    assert_eq!(s.characteristics.len(), 2);
    assert_eq!(s.characteristics[0].uuid, BRAIN_RX_UUID);
    assert_eq!(s.characteristics[0].caps, caps(true, true, true, true, true));
    assert_eq!(s.characteristics[1].uuid, BRAIN_TX_UUID);
    assert_eq!(s.characteristics[1].role, CharacteristicRole::BrainTx);
    assert_eq!(s.characteristics[1].caps, caps(true, true, true, false, false));
}

#[test]
fn reads_answer_per_table() {
    let brain = BrainChannel::new();
    assert_eq!(handle_read(CharacteristicRole::Telemetry, &brain), Ok(vec![]));
    assert_eq!(handle_read(CharacteristicRole::BrainRx, &brain), Ok(vec![]));
    assert_eq!(handle_read(CharacteristicRole::RateControl, &brain), Err(GattError::NotPermitted));
}

#[test]
fn brain_read_returns_deposited_payload() {
    let mut brain = BrainChannel::new();
    brain.deposit(vec![1, 2, 3]);
    assert_eq!(handle_read(CharacteristicRole::BrainTx, &brain), Ok(vec![1, 2, 3]));
    assert_eq!(brain.on_read(), vec![1, 2, 3]);
}

#[test]
fn brain_write_keeps_payload() {
    let mut brain = BrainChannel::new();
    let r = handle_write(CharacteristicRole::BrainRx, WritePolicy::accept_all(), &mut brain, vec![9, 8]);
    assert_eq!(r, Ok(()));
    assert_eq!(brain.inbound, vec![9, 8]);
    assert!(brain.outbound.is_empty());
}

#[test]
fn controller_write_is_discarded() {
    let mut brain = BrainChannel::new();
    let r = handle_write(CharacteristicRole::RateControl, WritePolicy::accept_all(), &mut brain, vec![4]);
    assert_eq!(r, Ok(()));
    assert!(brain.inbound.is_empty());
}

#[test]
fn policy_refuses_malformed_payload() {
    let mut brain = BrainChannel::new();
    let policy = WritePolicy { expected_len: Some(2) };
    assert_eq!(policy.check(&[1]), Err(WriteError::MalformedPayload));
    assert_eq!(
        handle_write(CharacteristicRole::BrainTx, policy, &mut brain, vec![1, 2, 3]),
        Err(GattError::MalformedPayload)
    );
    assert!(brain.inbound.is_empty());
    assert_eq!(
        handle_write(CharacteristicRole::RateControl, policy, &mut brain, vec![]),
        Err(GattError::MalformedPayload)
    );
    assert_eq!(handle_write(CharacteristicRole::BrainTx, policy, &mut brain, vec![5, 6]), Ok(()));
    assert_eq!(brain.inbound, vec![5, 6]);
    assert_eq!(brain.on_write(policy, vec![7]), Err(WriteError::MalformedPayload));
    assert_eq!(brain.inbound, vec![5, 6]);
}
