use std::collections::BTreeMap;

use nfc_bridge::registry_sounds::{
    disable_action, restore_operation, restored_count, sound_paths, CurrentValue, DisableAction,
    DisableAttempt, DisableTrace, RestoreAction, RestoreOperation, RestoreStep, RestoreTrace, SoundSuppressor,
    RegistryValue, REG_SZ, SOUND_EVENTS_PATH,
};

/// The keys of a registry that can be written, each with its value.
type Keys = BTreeMap<String, Option<RegistryValue>>;

/// The registry type of text with environment variables.
const REG_EXPAND_SZ: u32 = 2;

fn wide(text: &str) -> Vec<u8> {
    text.encode_utf16().chain(Some(0)).flat_map(|unit| unit.to_le_bytes()).collect()
}

fn text(value: &str) -> RegistryValue {
    RegistryValue { kind: REG_SZ, bytes: wide(value) }
}

fn keys(values: &[(&str, Option<&str>)]) -> Keys {
    values
        .iter()
        .map(|(event, value)| (format!("{}\\.Current", event), value.map(text)))
        .collect()
}

fn windows_keys() -> Keys {
    keys(&[
        ("DeviceConnect", Some("connect.wav")),
        ("DeviceDisconnect", None),
        ("DeviceFail", Some("")),
        ("SystemNotification", Some("notify.wav")),
    ])
}

fn disable(registry: &mut Keys, path: &str) -> DisableAttempt {
    let mut trace = DisableTrace { opened: None, current: None, written: None };
    loop {
        match disable_action(&trace) {
            DisableAction::Open => trace.opened = Some(registry.contains_key(path)),
            DisableAction::ReadValue => {
                trace.current = Some(match &registry[path] {
                    Some(value) => CurrentValue::Present(value.clone()),
                    None => CurrentValue::Absent,
                })
            }
            DisableAction::WriteValue(value) => {
                registry.insert(path.to_string(), Some(value));
                trace.written = Some(true);
            }
            DisableAction::Finished(attempt) => return attempt,
        }
    }
}

fn suppress(registry: &mut Keys) -> Option<SoundSuppressor> {
    let mut attempts = Vec::new();
    for path in sound_paths() {
        attempts.push(disable(registry, &path));
    }
    SoundSuppressor::new(Ok(attempts))
}

fn restore(registry: &mut Keys, suppressor: &mut SoundSuppressor) -> usize {
    let mut outcomes = Vec::new();
    for step in suppressor.restore() {
        outcomes.push(restore_one(registry, step));
    }
    restored_count(&outcomes)
}

fn restore_one(registry: &mut Keys, step: RestoreStep) -> bool {
    let mut trace = RestoreTrace { opened: None, applied: None };
    loop {
        match restore_operation(&trace) {
            RestoreOperation::Open => trace.opened = Some(registry.contains_key(&step.path)),
            RestoreOperation::Apply => {
                let value = match &step.action {
                    RestoreAction::SetValue(value) => Some(value.clone()),
                    RestoreAction::DeleteValue => None,
                };
                registry.insert(step.path.clone(), value);
                trace.applied = Some(true);
            }
            RestoreOperation::Finished(success) => return success,
        }
    }
}

#[test]
fn test_sound_suppressor_creation() {
    let mut registry = windows_keys();
    let guard = suppress(&mut registry);
    assert_eq!(guard.map(|guard| guard.disabled_count()), Some(4));
    assert!(registry.values().all(|value| *value == Some(text(""))));
}

#[test]
fn test_sound_suppressor_restore() {
    let mut registry = windows_keys();
    if let Some(mut guard) = suppress(&mut registry) {
        assert_eq!(restore(&mut registry, &mut guard), 4);
        assert_eq!(registry, windows_keys());
        // Should be safe to call restore multiple times
        assert!(guard.restore().is_empty());
        assert_eq!(registry, windows_keys());
    } else {
        panic!("no sound was disabled");
    }
}

#[test]
fn test_sound_suppressor_is_send() {
    // Verify SoundSuppressor can be sent between threads
    fn assert_send<T: Send>() {}
    assert_send::<SoundSuppressor>();
}

#[test]
fn sounds_that_cannot_be_opened_are_left_alone() {
    let mut registry = keys(&[("DeviceDisconnect", None), ("DeviceFail", Some("x"))]);
    let before = registry.clone();
    let mut guard = suppress(&mut registry).unwrap();
    assert_eq!(registry.len(), 2);
    assert_eq!(restore(&mut registry, &mut guard), 2);
    assert_eq!(registry, before);
}

#[test]
fn nothing_to_restore_without_disabled_sounds() {
    assert!(suppress(&mut keys(&[])).is_none());
    assert!(SoundSuppressor::new(Err("denied".to_string())).is_none());
    assert!(SoundSuppressor::new(Ok(vec![
        DisableAttempt::WriteFailed,
        DisableAttempt::OpenFailed,
        DisableAttempt::WriteFailed,
        DisableAttempt::OpenFailed,
    ]))
    .is_none());
}

#[test]
fn restore_steps_in_order() {
    let mut guard = SoundSuppressor::new(Ok(vec![
        DisableAttempt::Disabled(Some(text("a.wav"))),
        DisableAttempt::WriteFailed,
        DisableAttempt::Disabled(None),
        DisableAttempt::OpenFailed,
    ]))
    .unwrap();
    let steps = guard.restore();
    assert_eq!(steps.len(), 2);
    assert_eq!(steps[0].path, "DeviceConnect\\.Current");
    assert!(matches!(&steps[0].action, RestoreAction::SetValue(value) if *value == text("a.wav")));
    assert_eq!(steps[1].path, "DeviceFail\\.Current");
    assert!(matches!(&steps[1].action, RestoreAction::DeleteValue));
}

#[test]
fn failed_write_gives_up() {
    let trace = DisableTrace {
        opened: Some(true),
        current: Some(CurrentValue::Present(text("x"))),
        written: Some(false),
    };
    assert!(matches!(
        disable_action(&trace),
        DisableAction::Finished(DisableAttempt::WriteFailed)
    ));
    let trace = DisableTrace { opened: Some(true), current: Some(CurrentValue::Absent), written: None };
    assert!(matches!(disable_action(&trace), DisableAction::WriteValue(value) if value == text("")));
}

#[test]
fn unreadable_values_are_left_alone() {
    let trace = DisableTrace {
        opened: Some(true),
        current: Some(CurrentValue::Unreadable),
        written: None,
    };
    assert!(matches!(
        disable_action(&trace),
        DisableAction::Finished(DisableAttempt::ReadFailed)
    ));
    assert!(SoundSuppressor::new(Ok(vec![DisableAttempt::ReadFailed])).is_none());
}

#[test]
fn values_come_back_with_their_type() {
    let mut registry = windows_keys();
    let expandable =
        RegistryValue { kind: REG_EXPAND_SZ, bytes: wide("%SystemRoot%\\media\\ding.wav") };
    registry.insert("DeviceFail\\.Current".to_string(), Some(expandable.clone()));
    let mut guard = suppress(&mut registry).unwrap();
    assert_eq!(registry["DeviceFail\\.Current"], Some(text("")));
    assert_eq!(restore(&mut registry, &mut guard), 4);
    assert_eq!(registry["DeviceFail\\.Current"], Some(expandable));
    assert_eq!(restore(&mut registry, &mut guard), 0);
}

#[test]
fn failed_restore_steps() {
    let mut registry = windows_keys();
    let mut guard = suppress(&mut registry).unwrap();
    registry.remove("DeviceConnect\\.Current");
    assert_eq!(restore(&mut registry, &mut guard), 3);
    assert!(!registry.contains_key("DeviceConnect\\.Current"));
    let trace = RestoreTrace { opened: Some(true), applied: Some(false) };
    assert_eq!(restore_operation(&trace), RestoreOperation::Finished(false));
}

#[test]
fn registry_paths() {
    assert_eq!(SOUND_EVENTS_PATH, r"AppEvents\Schemes\Apps\.Default");
    assert_eq!(text(""), RegistryValue { kind: 1, bytes: vec![0, 0] });
    assert_eq!(
        sound_paths(),
        vec![
            r"DeviceConnect\.Current",
            r"DeviceDisconnect\.Current",
            r"DeviceFail\.Current",
            r"SystemNotification\.Current",
        ]
    );
}

#[test]
fn restored_sounds_are_counted() {
    assert_eq!(restored_count(&vec![]), 0);
    assert_eq!(restored_count(&vec![true, false, true, true]), 3);
}
