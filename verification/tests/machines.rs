use sysmon::item::ItemInfo;
use sysmon::registry::{
    bytes_contain, key_in_machine_hive, RegistryAction, RegistryEvent, RegistryState, REG_NT_POST_SET_VALUE_KEY,
};
use sysmon::setup::{
    setup_step, setup_steps, startup_begin, teardown_steps, SetupStep, StartupAction, StartupEvent, StartupState,
    SETUP_STEP_COUNT,
};
use sysmon::status::{STATUS_INSUFFICIENT_RESOURCES, STATUS_SUCCESS, STATUS_UNSUCCESSFUL};

fn finish_status(a: &RegistryAction) -> Option<i32> {
    match a {
        RegistryAction::Finish { status } => Some(*status),
        _ => None,
    }
}

fn run_to_key(key: Option<&str>) -> (RegistryState, RegistryAction) {
    let s = RegistryState::Idle;
    let (s, a) = s.step(RegistryEvent::Notified { notify_class: REG_NT_POST_SET_VALUE_KEY as usize });
    assert!(matches!(a, RegistryAction::ReadOperationStatus));
    let (s, a) = s.step(RegistryEvent::OperationStatus { status: STATUS_SUCCESS });
    assert!(matches!(a, RegistryAction::GetKeyObjectName));
    let (s, a) = s.step(RegistryEvent::KeyObject { status: STATUS_SUCCESS, name_present: true });
    assert!(matches!(a, RegistryAction::ConvertKeyName));
    s.step(RegistryEvent::KeyName { name: key.map(|k| k.to_string()) })
}

#[test]
fn registry_write_under_machine_hive_is_recorded_then_released() {
    let (s, a) = run_to_key(Some("\\REGISTRY\\MACHINE\\SOFTWARE\\Test"));
    assert!(matches!(a, RegistryAction::ReadPreInformation));
    let (s, a) = s.step(RegistryEvent::PreInformation { present: true });
    assert!(matches!(a, RegistryAction::ConvertValueName));
    let (s, a) = s.step(RegistryEvent::ValueName { converted: true, data_type: 4, process_id: 0x44, thread_id: 0x1_0000_0048 });
    match a {
        RegistryAction::Record { item } => {
            assert!(item == ItemInfo::RegistrySetValue {
                pid: 0x44,
                tid: 0x48,
                key_name: ItemInfo::string_to_buffer("\\REGISTRY\\MACHINE\\SOFTWARE\\Test".to_string()),
                data_type: 4,
            });
        },
        _ => panic!("expected a record"),
    }
    let (s, a) = s.step(RegistryEvent::Recorded);
    assert!(matches!(a, RegistryAction::ReleaseKeyName));
    assert!(s.accepts(&RegistryEvent::Released));
    let (s, a) = s.step(RegistryEvent::Released);
    assert_eq!(finish_status(&a), Some(STATUS_SUCCESS));
    assert!(matches!(s, RegistryState::Done));
}

#[test]
fn registry_write_elsewhere_is_only_released() {
    let (s, a) = run_to_key(Some("\\REGISTRY\\USER\\S-1-5\\Software"));
    assert!(matches!(a, RegistryAction::ReleaseKeyName));
    let (_, a) = s.step(RegistryEvent::Released);
    assert_eq!(finish_status(&a), Some(STATUS_SUCCESS));
}

#[test]
fn registry_unreadable_key_name_is_released() {
    let (s, a) = run_to_key(None);
    assert!(matches!(a, RegistryAction::ReleaseKeyName));
    assert!(matches!(s, RegistryState::AwaitRelease));
}

#[test]
fn registry_missing_details_or_value_name_are_released() {
    let (s, _) = run_to_key(Some("\\REGISTRY\\MACHINE\\X"));
    let (_, a) = s.step(RegistryEvent::PreInformation { present: false });
    assert!(matches!(a, RegistryAction::ReleaseKeyName));
    let (s, _) = run_to_key(Some("\\REGISTRY\\MACHINE\\X"));
    let (s, _) = s.step(RegistryEvent::PreInformation { present: true });
    let (_, a) = s.step(RegistryEvent::ValueName { converted: false, data_type: 1, process_id: 1, thread_id: 1 });
    assert!(matches!(a, RegistryAction::ReleaseKeyName));
}

#[test]
fn registry_other_notifications_and_failures_end_at_once() {
    let (s, a) = RegistryState::Idle.step(RegistryEvent::Notified { notify_class: 1 });
    assert_eq!(finish_status(&a), Some(STATUS_SUCCESS));
    assert!(matches!(s, RegistryState::Done));
    let (s, _) = RegistryState::Idle.step(RegistryEvent::Notified { notify_class: 16 });
    let (_, a) = s.step(RegistryEvent::OperationStatus { status: STATUS_UNSUCCESSFUL });
    assert_eq!(finish_status(&a), Some(STATUS_SUCCESS));
    let (_, a) = RegistryState::AwaitKeyObject.step(RegistryEvent::KeyObject { status: STATUS_UNSUCCESSFUL, name_present: true });
    assert_eq!(finish_status(&a), Some(STATUS_SUCCESS));
}

#[test]
fn registry_key_without_name_fails() {
    let (s, a) = RegistryState::AwaitKeyObject.step(RegistryEvent::KeyObject { status: STATUS_SUCCESS, name_present: false });
    assert_eq!(finish_status(&a), Some(STATUS_UNSUCCESSFUL));
    assert!(matches!(s, RegistryState::Done));
}

#[test]
fn registry_states_accept_only_their_event() {
    assert!(RegistryState::Idle.accepts(&RegistryEvent::Notified { notify_class: 0 }));
    assert!(!RegistryState::Idle.accepts(&RegistryEvent::Released));
    assert!(!RegistryState::Done.accepts(&RegistryEvent::Released));
}

#[test]
fn machine_hive_test_is_a_substring_search() {
    assert!(key_in_machine_hive("\\REGISTRY\\MACHINE"));
    assert!(key_in_machine_hive("x\\REGISTRY\\MACHINE\\y"));
    assert!(!key_in_machine_hive("\\REGISTRY\\MACHIN"));
    assert!(!key_in_machine_hive("\\registry\\machine\\y"));
    assert!(bytes_contain(b"abc", b""));
    assert!(bytes_contain(b"abcabd", b"abd"));
    assert!(!bytes_contain(b"ab", b"abc"));
}

fn finish(a: StartupAction) -> (i32, Vec<SetupStep>) {
    match a {
        StartupAction::Finish { status, undo } => (status, undo),
        _ => panic!("expected the end of setup"),
    }
}

#[test]
fn startup_registers_everything_in_order() {
    let (mut s, a) = startup_begin();
    assert!(matches!(a, StartupAction::ReserveEventStorage));
    let (s2, mut a) = s.step(StartupEvent::Reserved { ok: true });
    s = s2;
    for i in 0..SETUP_STEP_COUNT {
        match a {
            StartupAction::Perform { step } => assert_eq!(step, setup_step(i)),
            _ => panic!("expected a registration"),
        }
        let (s2, a2) = s.step(StartupEvent::StepStatus { status: STATUS_SUCCESS });
        s = s2;
        a = a2;
    }
    let (status, undo) = finish(a);
    assert_eq!(status, STATUS_SUCCESS);
    assert!(undo.is_empty());
    assert!(matches!(s, StartupState::Finished));
}

#[test]
fn startup_failure_undoes_what_was_registered() {
    let (s, _) = startup_begin();
    let (mut s, _) = s.step(StartupEvent::Reserved { ok: true });
    for _ in 0..3 {
        s = s.step(StartupEvent::StepStatus { status: STATUS_SUCCESS }).0;
    }
    let (_, a) = s.step(StartupEvent::StepStatus { status: STATUS_UNSUCCESSFUL });
    let (status, undo) = finish(a);
    assert_eq!(status, STATUS_UNSUCCESSFUL);
    assert_eq!(undo, vec![SetupStep::CreateDevice, SetupStep::CreateSymbolicLink, SetupStep::RegisterProcessNotify]);
}

#[test]
fn startup_failure_of_the_device_undoes_nothing() {
    let (s, _) = startup_begin();
    let (s, _) = s.step(StartupEvent::Reserved { ok: true });
    let (_, a) = s.step(StartupEvent::StepStatus { status: STATUS_INSUFFICIENT_RESOURCES });
    let (status, undo) = finish(a);
    assert_eq!(status, STATUS_INSUFFICIENT_RESOURCES);
    assert!(undo.is_empty());
}

#[test]
fn startup_without_event_storage_fails() {
    let (s, _) = startup_begin();
    assert!(s.accepts(&StartupEvent::Reserved { ok: false }));
    assert!(!s.accepts(&StartupEvent::StepStatus { status: 0 }));
    let (s, a) = s.step(StartupEvent::Reserved { ok: false });
    let (status, undo) = finish(a);
    assert_eq!(status, STATUS_INSUFFICIENT_RESOURCES);
    assert!(undo.is_empty());
    assert!(!s.accepts(&StartupEvent::Reserved { ok: true }));
}

#[test]
fn teardown_undoes_every_registration() {
    assert_eq!(
        teardown_steps(),
        vec![
            SetupStep::CreateDevice,
            SetupStep::CreateSymbolicLink,
            SetupStep::RegisterProcessNotify,
            SetupStep::RegisterThreadNotify,
            SetupStep::RegisterImageNotify,
            SetupStep::RegisterRegistryCallback,
        ]
    );
    assert_eq!(setup_steps(2), vec![SetupStep::CreateDevice, SetupStep::CreateSymbolicLink]);
}
