use message_lib_registry::endpoint::{Endpoint, LibraryChangeEvent, LibraryRole, ReceiveState};
use message_lib_registry::errors::RegistryError;
use message_lib_registry::message_lib::{LibraryIdentity, MessageLibInfo, MessageLibType};

const OWNER: u64 = 10;
const APP: u64 = 1;
const EID: u32 = 2;

fn lib(value: u64) -> LibraryIdentity {
    LibraryIdentity { value }
}

fn info(message_lib_type: MessageLibType) -> MessageLibInfo {
    MessageLibInfo { message_lib_type, bump: 0, message_lib_bump: 0 }
}

/// An endpoint with one provisioned application and two registered
/// libraries: LibA (send and receive) and LibB (receive only).
fn setup() -> (Endpoint, LibraryIdentity, LibraryIdentity) {
    let mut e = Endpoint::new();
    e.init_application(APP, OWNER).unwrap();
    let lib_a = lib(100);
    let lib_b = lib(200);
    e.register(lib_a, info(MessageLibType::SendAndReceive)).unwrap();
    e.register(lib_b, info(MessageLibType::Receive)).unwrap();
    (e, lib_a, lib_b)
}

#[test]
fn unset_path_accepts_exactly_the_default() {
    let (e, lib_a, _) = setup();
    let default_lib = lib(999);
    assert!(e.is_acceptable(APP, EID, default_lib, 0, default_lib));
    assert!(e.is_acceptable(APP, EID, default_lib, u64::MAX, default_lib));
    assert!(!e.is_acceptable(APP, EID, lib_a, 0, default_lib));
    assert!(!e.is_acceptable(APP, EID, lib(998), 0, default_lib));
    assert_eq!(e.receive_state(APP, EID), ReceiveState::Unset);
}

#[test]
fn pinned_path_accepts_exactly_the_pinned_library() {
    let (mut e, lib_a, lib_b) = setup();
    let default_lib = lib(999);
    e.set_receive_library(OWNER, APP, EID, lib_a, None, 0).unwrap();
    assert_eq!(e.receive_state(APP, EID), ReceiveState::Pinned { lib: lib_a });
    assert!(e.is_acceptable(APP, EID, lib_a, 0, default_lib));
    assert!(e.is_acceptable(APP, EID, lib_a, u64::MAX, default_lib));
    assert!(!e.is_acceptable(APP, EID, lib_b, 0, default_lib));
    assert!(!e.is_acceptable(APP, EID, default_lib, 0, default_lib));
}

#[test]
fn migration_window_boundaries() {
    let (mut e, lib_a, lib_b) = setup();
    let default_lib = lib(999);
    e.set_receive_library(OWNER, APP, EID, lib_a, None, 0).unwrap();
    e.set_receive_library(OWNER, APP, EID, lib_b, Some(100), 10).unwrap();
    assert_eq!(
        e.receive_state(APP, EID),
        ReceiveState::Migrating { lib: lib_b, prev: lib_a, expiry: 100 }
    );
    // strictly before expiry: both the new and the previous library
    assert!(e.is_acceptable(APP, EID, lib_b, 99, default_lib));
    assert!(e.is_acceptable(APP, EID, lib_a, 99, default_lib));
    // at expiry: only the new library
    assert!(e.is_acceptable(APP, EID, lib_b, 100, default_lib));
    assert!(!e.is_acceptable(APP, EID, lib_a, 100, default_lib));
    // never a third library
    assert!(!e.is_acceptable(APP, EID, default_lib, 50, default_lib));
}

#[test]
fn second_migration_discards_previous_window() {
    let (mut e, lib_a, lib_b) = setup();
    let lib_c = lib(300);
    e.register(lib_c, info(MessageLibType::Receive)).unwrap();
    let default_lib = lib(999);
    e.set_receive_library(OWNER, APP, EID, lib_a, None, 0).unwrap();
    e.set_receive_library(OWNER, APP, EID, lib_b, Some(100), 10).unwrap();
    e.set_receive_library(OWNER, APP, EID, lib_c, Some(200), 20).unwrap();
    assert_eq!(
        e.receive_state(APP, EID),
        ReceiveState::Migrating { lib: lib_c, prev: lib_b, expiry: 200 }
    );
    // lib_a is no longer acceptable even before the first window's expiry
    assert!(!e.is_acceptable(APP, EID, lib_a, 50, default_lib));
    assert!(e.is_acceptable(APP, EID, lib_b, 50, default_lib));
    assert!(e.is_acceptable(APP, EID, lib_c, 50, default_lib));
}

#[test]
fn register_duplicate_is_rejected_and_capability_unchanged() {
    let mut e = Endpoint::new();
    let lib_a = lib(100);
    assert_eq!(e.register(lib_a, info(MessageLibType::Send)), Ok(()));
    assert_eq!(
        e.register(lib_a, info(MessageLibType::Receive)),
        Err(RegistryError::AlreadyRegistered)
    );
    assert_eq!(e.capability_of(lib_a), Some(MessageLibType::Send));
}

#[test]
fn receive_migration_scenario() {
    // Directory has LibA {SendAndReceive} and LibB {Receive}; pin LibA, then
    // migrate to LibB with expiry 100 at checkpoint 10.
    let (mut e, lib_a, lib_b) = setup();
    let default_lib = lib(999);
    e.set_receive_library(OWNER, APP, EID, lib_a, None, 5).unwrap();
    e.set_receive_library(OWNER, APP, EID, lib_b, Some(100), 10).unwrap();
    assert_eq!(
        e.receive_state(APP, EID),
        ReceiveState::Migrating { lib: lib_b, prev: lib_a, expiry: 100 }
    );
    assert!(e.is_acceptable(APP, EID, lib_a, 50, default_lib));
    assert!(!e.is_acceptable(APP, EID, lib_a, 150, default_lib));
    assert!(e.is_acceptable(APP, EID, lib_b, 150, default_lib));
}

#[test]
fn send_selection_rejects_receive_only_library() {
    let (mut e, lib_a, lib_b) = setup();
    e.set_send_library(OWNER, APP, EID, lib_a).unwrap();
    assert_eq!(
        e.set_send_library(OWNER, APP, EID, lib_b),
        Err(RegistryError::InvalidCapability)
    );
    // the prior send selection is intact
    assert_eq!(e.send_library_of(APP, EID), Some(lib_a));
}

#[test]
fn receive_selection_rejects_send_only_library() {
    let (mut e, _, _) = setup();
    let lib_s = lib(300);
    e.register(lib_s, info(MessageLibType::Send)).unwrap();
    assert_eq!(
        e.set_receive_library(OWNER, APP, EID, lib_s, None, 0),
        Err(RegistryError::InvalidCapability)
    );
    assert_eq!(e.receive_state(APP, EID), ReceiveState::Unset);
}

#[test]
fn unregistered_library_is_rejected_for_both_roles() {
    let (mut e, _, _) = setup();
    let unknown = lib(555);
    assert_eq!(
        e.set_send_library(OWNER, APP, EID, unknown),
        Err(RegistryError::InvalidCapability)
    );
    assert_eq!(
        e.set_receive_library(OWNER, APP, EID, unknown, None, 0),
        Err(RegistryError::InvalidCapability)
    );
    assert_eq!(e.capability_of(unknown), None);
}

#[test]
fn expiry_must_be_strictly_future() {
    let (mut e, lib_a, lib_b) = setup();
    e.set_receive_library(OWNER, APP, EID, lib_a, None, 0).unwrap();
    // expiry equal to the current checkpoint is rejected, state unchanged
    assert_eq!(
        e.set_receive_library(OWNER, APP, EID, lib_b, Some(10), 10),
        Err(RegistryError::InvalidExpiry)
    );
    assert_eq!(e.receive_state(APP, EID), ReceiveState::Pinned { lib: lib_a });
    // expiry in the past is rejected too
    assert_eq!(
        e.set_receive_library(OWNER, APP, EID, lib_b, Some(9), 10),
        Err(RegistryError::InvalidExpiry)
    );
    // one checkpoint ahead is the smallest valid window
    assert!(e.set_receive_library(OWNER, APP, EID, lib_b, Some(11), 10).is_ok());
}

#[test]
fn only_the_owner_may_mutate() {
    let (mut e, lib_a, _) = setup();
    let intruder: u64 = 11;
    assert_eq!(
        e.set_send_library(intruder, APP, EID, lib_a),
        Err(RegistryError::Unauthorized)
    );
    assert_eq!(
        e.set_receive_library(intruder, APP, EID, lib_a, None, 0),
        Err(RegistryError::Unauthorized)
    );
    assert_eq!(
        e.clear_send_library(intruder, APP, EID),
        Err(RegistryError::Unauthorized)
    );
    assert_eq!(
        e.clear_receive_library(intruder, APP, EID),
        Err(RegistryError::Unauthorized)
    );
    // an application never provisioned has no owner: everyone is rejected
    assert_eq!(
        e.set_send_library(OWNER, 77, EID, lib_a),
        Err(RegistryError::Unauthorized)
    );
    assert_eq!(e.send_library_of(APP, EID), None);
    assert_eq!(e.receive_state(APP, EID), ReceiveState::Unset);
}

#[test]
fn init_application_is_one_shot() {
    let mut e = Endpoint::new();
    assert_eq!(e.init_application(APP, OWNER), Ok(()));
    assert_eq!(e.init_application(APP, 42), Err(RegistryError::AlreadyRegistered));
    assert_eq!(e.owner_of(APP), Some(OWNER));
    assert_eq!(e.owner_of(3), None);
}

#[test]
fn clear_receive_returns_path_to_default() {
    let (mut e, lib_a, _) = setup();
    let default_lib = lib(999);
    e.set_receive_library(OWNER, APP, EID, lib_a, None, 0).unwrap();
    let ev = e.clear_receive_library(OWNER, APP, EID).unwrap();
    assert_eq!(e.receive_state(APP, EID), ReceiveState::Unset);
    assert!(e.is_acceptable(APP, EID, default_lib, 0, default_lib));
    assert!(!e.is_acceptable(APP, EID, lib_a, 0, default_lib));
    assert_eq!(
        ev,
        LibraryChangeEvent {
            application: APP,
            remote_eid: EID,
            role: LibraryRole::Receive,
            old_library: Some(lib_a),
            new_library: None,
            expiry: None,
        }
    );
}

#[test]
fn clear_send_returns_path_to_default() {
    let (mut e, lib_a, _) = setup();
    e.set_send_library(OWNER, APP, EID, lib_a).unwrap();
    assert_eq!(e.send_library_of(APP, EID), Some(lib_a));
    let ev = e.clear_send_library(OWNER, APP, EID).unwrap();
    assert_eq!(e.send_library_of(APP, EID), None);
    assert_eq!(ev.role, LibraryRole::Send);
    assert_eq!(ev.old_library, Some(lib_a));
    assert_eq!(ev.new_library, None);
}

#[test]
fn change_events_report_the_transition() {
    let (mut e, lib_a, lib_b) = setup();
    let ev1 = e.set_send_library(OWNER, APP, EID, lib_a).unwrap();
    assert_eq!(
        ev1,
        LibraryChangeEvent {
            application: APP,
            remote_eid: EID,
            role: LibraryRole::Send,
            old_library: None,
            new_library: Some(lib_a),
            expiry: None,
        }
    );
    let ev2 = e.set_receive_library(OWNER, APP, EID, lib_a, None, 0).unwrap();
    assert_eq!(ev2.role, LibraryRole::Receive);
    assert_eq!(ev2.old_library, None);
    assert_eq!(ev2.new_library, Some(lib_a));
    assert_eq!(ev2.expiry, None);
    let ev3 = e.set_receive_library(OWNER, APP, EID, lib_b, Some(100), 10).unwrap();
    assert_eq!(ev3.old_library, Some(lib_a));
    assert_eq!(ev3.new_library, Some(lib_b));
    assert_eq!(ev3.expiry, Some(100));
}

#[test]
fn reapplying_the_same_receive_library_is_a_noop() {
    let (mut e, lib_a, _) = setup();
    e.set_receive_library(OWNER, APP, EID, lib_a, None, 0).unwrap();
    assert!(e.set_receive_library(OWNER, APP, EID, lib_a, None, 5).is_ok());
    assert_eq!(e.receive_state(APP, EID), ReceiveState::Pinned { lib: lib_a });
}

#[test]
fn switching_without_a_window_is_immediate() {
    let (mut e, lib_a, lib_b) = setup();
    let default_lib = lib(999);
    e.set_receive_library(OWNER, APP, EID, lib_a, None, 0).unwrap();
    e.set_receive_library(OWNER, APP, EID, lib_b, None, 10).unwrap();
    assert_eq!(e.receive_state(APP, EID), ReceiveState::Pinned { lib: lib_b });
    assert!(!e.is_acceptable(APP, EID, lib_a, 10, default_lib));
    assert!(e.is_acceptable(APP, EID, lib_b, 10, default_lib));
}

#[test]
fn first_selection_from_unset_is_pinned() {
    // From Unset there is no previous library, so even a requested window
    // ends in a pinned state.
    let (mut e, _, lib_b) = setup();
    e.set_receive_library(OWNER, APP, EID, lib_b, Some(100), 10).unwrap();
    assert_eq!(e.receive_state(APP, EID), ReceiveState::Pinned { lib: lib_b });
}

#[test]
fn paths_are_independent() {
    let (mut e, lib_a, lib_b) = setup();
    let default_lib = lib(999);
    e.set_receive_library(OWNER, APP, EID, lib_a, None, 0).unwrap();
    assert_eq!(e.receive_state(APP, 3), ReceiveState::Unset);
    assert!(e.is_acceptable(APP, 3, default_lib, 0, default_lib));
    e.set_receive_library(OWNER, APP, 3, lib_b, None, 0).unwrap();
    assert_eq!(e.receive_state(APP, EID), ReceiveState::Pinned { lib: lib_a });
    assert_eq!(e.receive_state(APP, 3), ReceiveState::Pinned { lib: lib_b });
}
