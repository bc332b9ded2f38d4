//! Windows Registry-based USB/Device sound suppression
//!
//! While the bridge runs, Windows device connection and disconnection sounds are silenced,
//! and restored afterwards. The caller performs the registry operations; what is backed up
//! and what restoring takes is decided here.
use vstd::prelude::*;
use vstd::string::*;

verus! {

/// Registry path for Windows sound events
pub const SOUND_EVENTS_PATH: &'static str = "AppEvents\\Schemes\\Apps\\.Default";

/// The registry type of text.
pub const REG_SZ: u32 = 1;

/// A value in the registry: the code of its type, and its raw bytes.
#[derive(Debug, PartialEq, Eq)]
pub struct RegistryValue {
    pub kind: u32,
    pub bytes: Vec<u8>,
}

/// What a [`RegistryValue`] stands for.
pub struct RegistryValueView {
    pub kind: u32,
    pub bytes: Seq<u8>,
}

impl View for RegistryValue {
    type V = RegistryValueView;

    open spec fn view(&self) -> RegistryValueView {
        RegistryValueView { kind: self.kind, bytes: self.bytes@ }
    }
}

impl Clone for RegistryValue {
    fn clone(&self) -> (copy: RegistryValue)
        ensures
            copy@ == self@,
    {
        let bytes = self.bytes.clone();
        assert(bytes@ =~= self.bytes@);
        RegistryValue { kind: self.kind, bytes }
    }
}

/// An optional value by what it stands for.
pub open spec fn option_view(value: Option<RegistryValue>) -> Option<RegistryValueView> {
    match value {
        Some(value) => Some(value@),
        None => None,
    }
}

/// The value that disables the sound of an event: the empty text, which is a lone terminating
/// zero in UTF-16.
pub open spec fn silent_value() -> RegistryValueView {
    RegistryValueView { kind: REG_SZ, bytes: seq![0, 0] }
}

/// The value to write to disable the sound of an event.
fn silence() -> (value: RegistryValue)
    ensures
        value@ == silent_value(),
{
    let bytes: Vec<u8> = vec![0, 0];
    assert(bytes@ =~= silent_value().bytes);
    RegistryValue { kind: REG_SZ, bytes }
}

/// USB/Device sound events to disable
pub open spec fn device_sound_events() -> Seq<Seq<char>> {
    seq!["DeviceConnect"@, "DeviceDisconnect"@, "DeviceFail"@, "SystemNotification"@]
}

/// Registry path of the sound of an event, below [`SOUND_EVENTS_PATH`].
pub open spec fn event_path(event: Seq<char>) -> Seq<char> {
    event + "\\.Current"@
}

/// Registry path of the sound of the event at position `i`.
pub open spec fn sound_path(i: int) -> Seq<char> {
    event_path(device_sound_events()[i])
}

/// The registry paths of the sounds to disable, in the order in which they are disabled.
pub fn sound_paths() -> (paths: Vec<String>)
    ensures
        paths@.len() == device_sound_events().len(),
        forall|i: int| 0 <= i < paths@.len() ==> (#[trigger] paths@[i])@ == sound_path(i),
{
    vec![
        "DeviceConnect".to_string().concat("\\.Current"),
        "DeviceDisconnect".to_string().concat("\\.Current"),
        "DeviceFail".to_string().concat("\\.Current"),
        "SystemNotification".to_string().concat("\\.Current"),
    ]
}

/// What came of disabling the sound of one event.
#[derive(Debug)]
pub enum DisableAttempt {
    /// The key of the event could not be opened; nothing was changed.
    OpenFailed,
    /// The current value could not be read, so it could not be restored; nothing was changed.
    ReadFailed,
    /// The key could be opened but not written; nothing was changed.
    WriteFailed,
    /// The sound was disabled; it was set to the given value before, or had none.
    Disabled(Option<RegistryValue>),
}

/// What a [`DisableAttempt`] stands for.
pub enum DisableAttemptView {
    OpenFailed,
    ReadFailed,
    WriteFailed,
    Disabled(Option<RegistryValueView>),
}

impl View for DisableAttempt {
    type V = DisableAttemptView;

    open spec fn view(&self) -> DisableAttemptView {
        match self {
            DisableAttempt::OpenFailed => DisableAttemptView::OpenFailed,
            DisableAttempt::ReadFailed => DisableAttemptView::ReadFailed,
            DisableAttempt::WriteFailed => DisableAttemptView::WriteFailed,
            DisableAttempt::Disabled(value) => DisableAttemptView::Disabled(option_view(*value)),
        }
    }
}

pub open spec fn attempts_view(attempts: Seq<DisableAttempt>) -> Seq<DisableAttemptView> {
    attempts.map_values(|attempt: DisableAttempt| attempt@)
}

/// What came of reading the current value of an event's key.
#[derive(Debug)]
pub enum CurrentValue {
    Present(RegistryValue),
    /// The key has no value.
    Absent,
    /// There may be a value, but it could not be read.
    Unreadable,
}

/// What came of the operations on one event's key so far.
#[derive(Debug)]
pub struct DisableTrace {
    /// Opening the key for reading and writing: whether it succeeded.
    pub opened: Option<bool>,
    /// Reading the current value.
    pub current: Option<CurrentValue>,
    /// Writing the new value: whether it succeeded.
    pub written: Option<bool>,
}

/// What disabling the sound of one event comes to next: an operation on its key, or the
/// result.
#[derive(Debug)]
pub enum DisableAction {
    Open,
    ReadValue,
    WriteValue(RegistryValue),
    Finished(DisableAttempt),
}

/// What disabling the sound of one event comes to next. The current value is backed up
/// before it is overwritten; a failure to open, read or write the key gives up on the event.
pub fn disable_action(trace: &DisableTrace) -> (action: DisableAction)
    ensures
        match trace.opened {
            None => action is Open,
            Some(false) => action is Finished && action->Finished_0@
                == DisableAttemptView::OpenFailed,
            Some(true) => match trace.current {
                None => action is ReadValue,
                Some(CurrentValue::Unreadable) => action is Finished && action->Finished_0@
                    == DisableAttemptView::ReadFailed,
                Some(CurrentValue::Present(value)) => disables(
                    action,
                    trace.written,
                    Some(value@),
                ),
                Some(CurrentValue::Absent) => disables(action, trace.written, None),
            },
        },
{
    match trace.opened {
        None => {
            return DisableAction::Open;
        },
        Some(opened) => {
            if !opened {
                return DisableAction::Finished(DisableAttempt::OpenFailed);
            }
        },
    }
    let value = match &trace.current {
        None => {
            return DisableAction::ReadValue;
        },
        Some(CurrentValue::Unreadable) => {
            return DisableAction::Finished(DisableAttempt::ReadFailed);
        },
        Some(CurrentValue::Present(value)) => Some(value.clone()),
        Some(CurrentValue::Absent) => None,
    };
    match trace.written {
        None => DisableAction::WriteValue(silence()),
        Some(written) => if written {
            DisableAction::Finished(DisableAttempt::Disabled(value))
        } else {
            DisableAction::Finished(DisableAttempt::WriteFailed)
        },
    }
}

/// Whether `action` is what comes next once the backup `value` has been made: the silent value
/// is written, and if that succeeds the sound is disabled.
pub open spec fn disables(
    action: DisableAction,
    written: Option<bool>,
    value: Option<RegistryValueView>,
) -> bool {
    match written {
        None => action is WriteValue && action->WriteValue_0@ == silent_value(),
        Some(false) => action is Finished && action->Finished_0@ == DisableAttemptView::WriteFailed,
        Some(true) => action is Finished && action->Finished_0@ == DisableAttemptView::Disabled(
            value,
        ),
    }
}

/// A registry path and the value that was found there.
pub type Backup = (Seq<char>, Option<RegistryValueView>);

/// The backups after the first `n` attempts: one for every sound that was disabled.
pub open spec fn backups_after(attempts: Seq<DisableAttemptView>, n: nat) -> Seq<Backup>
    decreases n,
{
    if n == 0 {
        seq![]
    } else {
        let before = backups_after(attempts, (n - 1) as nat);
        match attempts[n - 1] {
            DisableAttemptView::Disabled(value) => before.push((sound_path(n - 1), value)),
            _ => before,
        }
    }
}

/// How many of the attempts concern one of the events: one each, in order.
pub open spec fn attempt_count(attempts: Seq<DisableAttemptView>) -> nat {
    if attempts.len() < device_sound_events().len() {
        attempts.len()
    } else {
        device_sound_events().len()
    }
}

/// The backups that a list of attempts, one for each event in order, leads to.
pub open spec fn disable_backups(attempts: Seq<DisableAttemptView>) -> Seq<Backup> {
    backups_after(attempts, attempt_count(attempts))
}

/// What takes a sound back to how it was.
#[derive(Debug)]
pub enum RestoreAction {
    SetValue(RegistryValue),
    /// There was no value before.
    DeleteValue,
}

/// One step of restoring the sounds.
#[derive(Debug)]
pub struct RestoreStep {
    pub path: String,
    pub action: RestoreAction,
}

/// What a [`RestoreAction`] stands for.
pub enum RestoreActionView {
    SetValue(RegistryValueView),
    DeleteValue,
}

/// What a [`RestoreStep`] stands for.
pub struct RestoreStepView {
    pub path: Seq<char>,
    pub action: RestoreActionView,
}

impl View for RestoreStep {
    type V = RestoreStepView;

    open spec fn view(&self) -> RestoreStepView {
        RestoreStepView {
            path: self.path@,
            action: match self.action {
                RestoreAction::SetValue(value) => RestoreActionView::SetValue(value@),
                RestoreAction::DeleteValue => RestoreActionView::DeleteValue,
            },
        }
    }
}

/// The step that takes one sound back to its backup.
pub open spec fn restore_step(backup: Backup) -> RestoreStepView {
    RestoreStepView {
        path: backup.0,
        action: match backup.1 {
            Some(value) => RestoreActionView::SetValue(value),
            None => RestoreActionView::DeleteValue,
        },
    }
}

/// The steps that take the sounds back to their backups.
pub open spec fn restore_steps(backups: Seq<Backup>) -> Seq<RestoreStepView> {
    backups.map_values(|backup: Backup| restore_step(backup))
}

/// Holds the backups of the device sounds that have been disabled.
#[derive(Debug)]
pub struct SoundSuppressor {
    backups: Vec<(String, Option<RegistryValue>)>,
}

impl View for SoundSuppressor {
    type V = Seq<Backup>;

    closed spec fn view(&self) -> Seq<Backup> {
        backups_view(self.backups@)
    }
}

spec fn backups_view(backups: Seq<(String, Option<RegistryValue>)>) -> Seq<Backup> {
    backups.map_values(|backup: (String, Option<RegistryValue>)| (backup.0@, option_view(backup.1)))
}

impl SoundSuppressor {
    /// The suppressor for the device sounds that have just been disabled. `attempts` holds
    /// what came of it for each event in order, or the error if the sound events could not
    /// be opened at all.
    ///
    /// Returns `None` if no sound was disabled.
    pub fn new(attempts: Result<Vec<DisableAttempt>, String>) -> (suppressor: Option<
        SoundSuppressor,
    >)
        ensures
            match attempts {
                Ok(attempts) => {
                    let backups = disable_backups(attempts_view(attempts@));
                    if backups.len() == 0 {
                        suppressor is None
                    } else {
                        suppressor is Some && suppressor->0@ == backups
                    }
                },
                Err(_) => suppressor is None,
            },
    {
        let backups = match attempts {
            Ok(attempts) => disable_sounds(attempts),
            Err(_) => {
                return None;
            },
        };
        if backups.len() == 0 {
            None
        } else {
            Some(SoundSuppressor { backups })
        }
    }

    /// How many sounds have been disabled and not been restored.
    pub fn disabled_count(&self) -> (count: usize)
        ensures
            count == self@.len(),
    {
        self.backups.len()
    }

    /// Restore original sound settings: the steps to perform.
    ///
    /// It's safe to call this multiple times - subsequent calls will have no effect.
    pub fn restore(&mut self) -> (steps: Vec<RestoreStep>)
        ensures
            steps@.map_values(|step: RestoreStep| step@) == restore_steps(old(self)@),
            final(self)@ == Seq::<Backup>::empty(),
    {
        let mut steps: Vec<RestoreStep> = Vec::new();
        let mut i: usize = 0;
        while i < self.backups.len()
            invariant
                i <= self.backups@.len(),
                self.backups == old(self).backups,
                steps@.len() == i,
                forall|j: int|
                    0 <= j < i ==> (#[trigger] steps@[j])@ == restore_step(
                        backups_view(self.backups@)[j],
                    ),
            decreases self.backups@.len() - i,
        {
            let action = match &self.backups[i].1 {
                Some(value) => RestoreAction::SetValue(value.clone()),
                None => RestoreAction::DeleteValue,
            };
            steps.push(RestoreStep { path: self.backups[i].0.clone(), action });
            i = i + 1;
        }
        assert(steps@.map_values(|step: RestoreStep| step@) =~= restore_steps(old(self)@));
        self.backups = Vec::new();
        assert(self@ =~= Seq::<Backup>::empty());
        steps
    }
}

/// The backups that a list of attempts leads to.
fn disable_sounds(attempts: Vec<DisableAttempt>) -> (backups: Vec<(String, Option<RegistryValue>)>)
    ensures
        backups_view(backups@) == disable_backups(attempts_view(attempts@)),
{
    let paths = sound_paths();
    let ghost views = attempts_view(attempts@);
    let mut backups: Vec<(String, Option<RegistryValue>)> = Vec::new();
    let mut i: usize = 0;
    assert(backups_view(backups@) =~= backups_after(views, 0));
    while i < attempts.len() && i < paths.len()
        invariant
            i <= attempts@.len(),
            i <= paths@.len(),
            paths@.len() == device_sound_events().len(),
            forall|j: int| 0 <= j < paths@.len() ==> (#[trigger] paths@[j])@ == sound_path(j),
            views == attempts_view(attempts@),
            backups_view(backups@) == backups_after(views, i as nat),
        decreases attempts@.len() - i,
    {
        let ghost before = backups@;
        assert(views[i as int] == attempts@[i as int]@);
        if let DisableAttempt::Disabled(value) = &attempts[i] {
            let backup = match value {
                Some(value) => Some(value.clone()),
                None => None,
            };
            backups.push((paths[i].clone(), backup));
            assert(backups_view(backups@) =~= backups_view(before).push(
                (backups@.last().0@, option_view(backups@.last().1)),
            ));
        }
        i = i + 1;
    }
    backups
}

/// What came of the operations of one restore step so far.
#[derive(Debug)]
pub struct RestoreTrace {
    /// Opening the key for writing: whether it succeeded.
    pub opened: Option<bool>,
    /// Performing the step's action: whether it succeeded.
    pub applied: Option<bool>,
}

/// What a restore step comes to next: an operation on its key, or whether it succeeded.
#[derive(Debug, Clone, Copy, PartialEq, Eq, Structural)]
pub enum RestoreOperation {
    Open,
    Apply,
    Finished(bool),
}

/// What a restore step comes to next. A failure to open the key or to perform the action
/// gives up on the step.
pub fn restore_operation(trace: &RestoreTrace) -> (operation: RestoreOperation)
    ensures
        operation == match (trace.opened, trace.applied) {
            (None, _) => RestoreOperation::Open,
            (Some(false), _) => RestoreOperation::Finished(false),
            (Some(true), None) => RestoreOperation::Apply,
            (Some(true), Some(applied)) => RestoreOperation::Finished(applied),
        },
{
    match trace.opened {
        None => RestoreOperation::Open,
        Some(opened) => if !opened {
            RestoreOperation::Finished(false)
        } else {
            match trace.applied {
                None => RestoreOperation::Apply,
                Some(applied) => RestoreOperation::Finished(applied),
            }
        },
    }
}

/// How many steps of restoring the sounds succeeded.
pub open spec fn success_count(outcomes: Seq<bool>) -> nat
    decreases outcomes.len(),
{
    if outcomes.len() == 0 {
        0
    } else if outcomes.last() {
        success_count(outcomes.drop_last()) + 1
    } else {
        success_count(outcomes.drop_last())
    }
}

/// How many steps of restoring the sounds succeeded.
pub fn restored_count(outcomes: &Vec<bool>) -> (count: usize)
    ensures
        count == success_count(outcomes@),
{
    let mut count: usize = 0;
    let mut i: usize = 0;
    while i < outcomes.len()
        invariant
            i <= outcomes@.len(),
            count <= i,
            count == success_count(outcomes@.take(i as int)),
        decreases outcomes@.len() - i,
    {
        assert(outcomes@.take(i + 1).drop_last() =~= outcomes@.take(i as int));
        if outcomes[i] {
            count = count + 1;
        }
        i = i + 1;
    }
    assert(outcomes@.take(i as int) =~= outcomes@);
    count
}

/// The sound settings in the registry: the value of every event's key, with its type, or none.
pub type Registry = Map<Seq<char>, Option<RegistryValueView>>;

/// Whether attempts report what a registry held: the key of every sound that was disabled
/// exists, and the reported value is its value.
pub open spec fn attempts_report(attempts: Seq<DisableAttemptView>, registry: Registry) -> bool {
    forall|i: int|
        0 <= i < attempt_count(attempts) && (#[trigger] attempts[i]) is Disabled ==> {
            &&& registry.contains_key(sound_path(i))
            &&& registry[sound_path(i)] == attempts[i]->Disabled_0
        }
}

/// A registry after the first `n` attempts: the sounds that were disabled are silent.
pub open spec fn registry_after(
    registry: Registry,
    attempts: Seq<DisableAttemptView>,
    n: nat,
) -> Registry
    decreases n,
{
    if n == 0 {
        registry
    } else {
        let before = registry_after(registry, attempts, (n - 1) as nat);
        if attempts[n - 1] is Disabled {
            before.insert(sound_path(n - 1), Some(silent_value()))
        } else {
            before
        }
    }
}

/// A registry after the given steps, of which those that failed have changed nothing.
pub open spec fn registry_restored(
    registry: Registry,
    steps: Seq<RestoreStepView>,
    outcomes: Seq<bool>,
) -> Registry
    decreases steps.len(),
{
    if steps.len() == 0 {
        registry
    } else {
        let before = registry_restored(registry, steps.drop_last(), outcomes.drop_last());
        if !outcomes.last() {
            before
        } else {
            match steps.last().action {
                RestoreActionView::SetValue(value) => before.insert(steps.last().path, Some(value)),
                RestoreActionView::DeleteValue => before.insert(steps.last().path, None),
            }
        }
    }
}

/// Whether one of the backups is for the given path.
spec fn backed_up(backups: Seq<Backup>, path: Seq<char>) -> bool {
    exists|i: int| 0 <= i < backups.len() && (#[trigger] backups[i]).0 == path
}

/// Whether one of the backups for the given path has been restored.
spec fn taken_back(backups: Seq<Backup>, outcomes: Seq<bool>, path: Seq<char>) -> bool {
    exists|i: int| 0 <= i < backups.len() && outcomes[i] && (#[trigger] backups[i]).0 == path
}

proof fn lemma_disabled_paths_are_backed_up(
    registry: Registry,
    attempts: Seq<DisableAttemptView>,
    n: nat,
)
    requires
        attempts_report(attempts, registry),
        n <= attempt_count(attempts),
    ensures
        registry_after(registry, attempts, n).dom() == registry.dom(),
        forall|path: Seq<char>|
            registry.contains_key(path) && !backed_up(backups_after(attempts, n), path)
                ==> #[trigger] registry_after(registry, attempts, n)[path] == registry[path],
        forall|i: int|
            0 <= i < backups_after(attempts, n).len() ==> registry_after(registry, attempts, n)[(
            #[trigger] backups_after(attempts, n)[i]).0] == Some(silent_value()),
        forall|i: int|
            0 <= i < backups_after(attempts, n).len() ==> {
                &&& registry.contains_key((#[trigger] backups_after(attempts, n)[i]).0)
                &&& registry[backups_after(attempts, n)[i].0] == backups_after(attempts, n)[i].1
            },
    decreases n,
{
    if n > 0 {
        let m = (n - 1) as nat;
        lemma_disabled_paths_are_backed_up(registry, attempts, m);
        let old_backups = backups_after(attempts, m);
        let backups = backups_after(attempts, n);
        assert(registry_after(registry, attempts, n).dom() =~= registry.dom());
        assert forall|path: Seq<char>|
            registry.contains_key(path) && !backed_up(
                backups,
                path,
            ) implies #[trigger] registry_after(registry, attempts, n)[path] == registry[path] by {
            assert(forall|i: int|
                0 <= i < old_backups.len() ==> backups[i] == #[trigger] old_backups[i]);
            assert(!backed_up(old_backups, path));
            if attempts[n - 1] is Disabled {
                assert(backups.last().0 == sound_path(n - 1));
                assert(path != sound_path(n - 1));
            }
            assert(registry_after(registry, attempts, m)[path] == registry[path]);
        }
    }
}

proof fn lemma_restored(
    registry: Registry,
    silent: Registry,
    backups: Seq<Backup>,
    outcomes: Seq<bool>,
)
    requires
        outcomes.len() == backups.len(),
        silent.dom() == registry.dom(),
        forall|i: int|
            0 <= i < backups.len() ==> {
                &&& registry.contains_key((#[trigger] backups[i]).0)
                &&& registry[backups[i].0] == backups[i].1
            },
    ensures
        registry_restored(silent, restore_steps(backups), outcomes).dom() == registry.dom(),
        forall|path: Seq<char>|
            registry.contains_key(path) ==> #[trigger] registry_restored(
                silent,
                restore_steps(backups),
                outcomes,
            )[path] == if taken_back(backups, outcomes, path) {
                registry[path]
            } else {
                silent[path]
            },
    decreases backups.len(),
{
    let steps = restore_steps(backups);
    if backups.len() > 0 {
        let rest = backups.drop_last();
        let rest_outcomes = outcomes.drop_last();
        assert(forall|i: int| 0 <= i < rest.len() ==> rest[i] == #[trigger] backups[i]);
        lemma_restored(registry, silent, rest, rest_outcomes);
        assert(steps.drop_last() =~= restore_steps(rest));
        assert(steps.last() == restore_step(backups.last()));
        let before = registry_restored(silent, restore_steps(rest), rest_outcomes);
        let restored = registry_restored(silent, steps, outcomes);
        assert(restored.dom() =~= registry.dom());
        assert forall|path: Seq<char>| registry.contains_key(path) implies (
        #[trigger] restored[path]) == if taken_back(backups, outcomes, path) {
            registry[path]
        } else {
            silent[path]
        } by {
            assert(before[path] == if taken_back(rest, rest_outcomes, path) {
                registry[path]
            } else {
                silent[path]
            });
            if path == backups.last().0 && outcomes.last() {
                assert(backups[backups.len() - 1].0 == path);
                assert(taken_back(backups, outcomes, path));
            } else if taken_back(rest, rest_outcomes, path) {
                let i = choose|i: int|
                    0 <= i < rest.len() && rest_outcomes[i] && (#[trigger] rest[i]).0 == path;
                assert(backups[i].0 == path);
            } else if taken_back(backups, outcomes, path) {
                let i = choose|i: int|
                    0 <= i < backups.len() && outcomes[i] && (#[trigger] backups[i]).0 == path;
                assert(rest[i].0 == path);
            }
        }
    }
}

/// Restoring undoes disabling: whatever sounds could be disabled, performing the restore
/// steps takes the registry back to how it was, values and their types. If some of the steps fail, the sounds they
/// are for stay silent and all others are as they were.
pub proof fn law_restore_undoes_disable(
    registry: Registry,
    attempts: Seq<DisableAttemptView>,
    outcomes: Seq<bool>,
)
    requires
        attempts_report(attempts, registry),
        outcomes.len() == disable_backups(attempts).len(),
    ensures
        ({
            let restored = registry_restored(
                registry_after(registry, attempts, attempt_count(attempts)),
                restore_steps(disable_backups(attempts)),
                outcomes,
            );
            &&& (forall|i: int| 0 <= i < outcomes.len() ==> #[trigger] outcomes[i]) ==> restored
                == registry
            &&& restored.dom() == registry.dom()
            &&& forall|path: Seq<char>| #[trigger]
                registry.contains_key(path) ==> {
                    ||| restored[path] == registry[path]
                    ||| {
                        &&& restored[path] == Some(silent_value())
                        &&& exists|i: int|
                            0 <= i < outcomes.len() && !outcomes[i] && (
                            #[trigger] disable_backups(attempts)[i]).0 == path
                    }
                }
        }),
{
    let n = attempt_count(attempts);
    let backups = disable_backups(attempts);
    let silent = registry_after(registry, attempts, n);
    lemma_disabled_paths_are_backed_up(registry, attempts, n);
    lemma_restored(registry, silent, backups, outcomes);
    let restored = registry_restored(silent, restore_steps(backups), outcomes);
    assert forall|path: Seq<char>| #[trigger] registry.contains_key(path) implies {
        ||| restored[path] == registry[path]
        ||| {
            &&& restored[path] == Some(silent_value())
            &&& exists|i: int|
                0 <= i < outcomes.len() && !outcomes[i] && (#[trigger] backups[i]).0 == path
        }
    } by {
        assert(restored[path] == if taken_back(backups, outcomes, path) {
            registry[path]
        } else {
            silent[path]
        });
        if backed_up(backups, path) {
            let i = choose|i: int| 0 <= i < backups.len() && (#[trigger] backups[i]).0 == path;
            assert(silent[backups[i].0] == Some(silent_value()));
        } else {
            assert(silent[path] == registry[path]);
        }
    }
    if forall|i: int| 0 <= i < outcomes.len() ==> #[trigger] outcomes[i] {
        assert(restored =~= registry);
    }
}

/// Restoring a second time changes nothing: once the sounds have been restored there are no
/// steps left, and performing none leaves every registry as it is.
pub proof fn law_restore_once(registry: Registry, outcomes: Seq<bool>)
    ensures
        restore_steps(Seq::<Backup>::empty()).len() == 0,
        registry_restored(registry, restore_steps(Seq::<Backup>::empty()), outcomes) == registry,
{
}

/// The sounds have different registry paths, so no backup is made twice.
pub proof fn law_sound_paths_differ(i: int, j: int)
    requires
        0 <= i < j < device_sound_events().len(),
    ensures
        sound_path(i) != sound_path(j),
{
    reveal_strlit("DeviceConnect");
    reveal_strlit("DeviceDisconnect");
    reveal_strlit("DeviceFail");
    reveal_strlit("SystemNotification");
    assert(sound_path(i).len() == device_sound_events()[i].len() + "\\.Current"@.len());
    assert(sound_path(j).len() == device_sound_events()[j].len() + "\\.Current"@.len());
}

/// The registry paths of the sounds, in the order in which they are disabled.
pub proof fn law_sound_path_names()
    ensures
        device_sound_events().len() == 4,
        sound_path(0) == "DeviceConnect\\.Current"@,
        sound_path(1) == "DeviceDisconnect\\.Current"@,
        sound_path(2) == "DeviceFail\\.Current"@,
        sound_path(3) == "SystemNotification\\.Current"@,
{
    reveal_strlit("\\.Current");
    reveal_strlit("DeviceConnect");
    reveal_strlit("DeviceDisconnect");
    reveal_strlit("DeviceFail");
    reveal_strlit("SystemNotification");
    reveal_strlit("DeviceConnect\\.Current");
    reveal_strlit("DeviceDisconnect\\.Current");
    reveal_strlit("DeviceFail\\.Current");
    reveal_strlit("SystemNotification\\.Current");
    assert(sound_path(0) =~= "DeviceConnect\\.Current"@);
    assert(sound_path(1) =~= "DeviceDisconnect\\.Current"@);
    assert(sound_path(2) =~= "DeviceFail\\.Current"@);
    assert(sound_path(3) =~= "SystemNotification\\.Current"@);
}

proof fn lemma_backups_match_attempts(attempts: Seq<DisableAttemptView>, n: nat)
    requires
        n <= attempts.len(),
    ensures
        forall|i: int|
            0 <= i < n && (#[trigger] attempts[i]) is Disabled ==> backups_after(
                attempts,
                n,
            ).contains((sound_path(i), attempts[i]->Disabled_0)),
    decreases n,
{
    if n > 0 {
        let m = (n - 1) as nat;
        lemma_backups_match_attempts(attempts, m);
        let before = backups_after(attempts, m);
        let backups = backups_after(attempts, n);
        assert(forall|k: int| 0 <= k < before.len() ==> backups[k] == #[trigger] before[k]);
        assert forall|i: int| 0 <= i < n && (#[trigger] attempts[i]) is Disabled implies
            backups.contains((sound_path(i), attempts[i]->Disabled_0)) by {
            if i == m {
                assert(backups.last() == (sound_path(i), attempts[i]->Disabled_0));
            } else {
                let k = before.index_of((sound_path(i), attempts[i]->Disabled_0));
                assert(before[k] == (sound_path(i), attempts[i]->Disabled_0));
                assert(backups[k] == before[k]);
            }
        }
    }
}

proof fn lemma_backup_has_attempt(attempts: Seq<DisableAttemptView>, n: nat, k: int) -> (i: int)
    requires
        n <= attempts.len(),
        0 <= k < backups_after(attempts, n).len(),
    ensures
        0 <= i < n,
        attempts[i] is Disabled,
        backups_after(attempts, n)[k] == (sound_path(i), attempts[i]->Disabled_0),
    decreases n,
{
    let m = (n - 1) as nat;
    if k < backups_after(attempts, m).len() {
        lemma_backup_has_attempt(attempts, m, k)
    } else {
        n - 1
    }
}

/// Attempts belong to the four sounds in order, and exactly the sounds that were disabled are
/// backed up, each under its own path and with the value that it had; there is a backup exactly
/// if a sound was disabled.
pub proof fn law_disabled_sounds_are_backed_up(attempts: Seq<DisableAttemptView>, backup: Backup)
    ensures
        disable_backups(attempts).contains(backup) <==> exists|i: int|
            0 <= i < attempts.len() && i < 4 && (#[trigger] attempts[i]) is Disabled && backup == (
                sound_path(i),
                attempts[i]->Disabled_0,
            ),
        disable_backups(attempts).len() == 0 <==> forall|i: int|
            0 <= i < attempts.len() && i < 4 ==> (#[trigger] attempts[i]) !is Disabled,
{
    law_sound_path_names();
    let n = attempt_count(attempts);
    lemma_backups_match_attempts(attempts, n);
    let backups = disable_backups(attempts);
    if backups.contains(backup) {
        let i = lemma_backup_has_attempt(attempts, n, backups.index_of(backup));
        assert(attempts[i] is Disabled);
    }
    if backups.len() > 0 {
        let i = lemma_backup_has_attempt(attempts, n, 0);
        assert(attempts[i] is Disabled);
    }
}

/// Each restore step is for the path of its backup: it sets the value that was backed up, or
/// deletes the value if there was none.
pub proof fn law_restore_steps(backups: Seq<Backup>, i: int)
    requires
        0 <= i < backups.len(),
    ensures
        restore_steps(backups).len() == backups.len(),
        restore_steps(backups)[i].path == backups[i].0,
        match backups[i].1 {
            Some(value) => restore_steps(backups)[i].action == RestoreActionView::SetValue(value),
            None => restore_steps(backups)[i].action is DeleteValue,
        },
{
}

/// Once a backup has been made, the empty text is written, and the sound then counts as disabled
/// with that backup exactly if the writing succeeded.
pub proof fn law_disables(
    action: DisableAction,
    written: Option<bool>,
    value: Option<RegistryValueView>,
)
    requires
        disables(action, written, value),
    ensures
        action is WriteValue <==> written is None,
        action is WriteValue ==> action->WriteValue_0.kind == 1 && action->WriteValue_0.bytes@
            == seq![0u8, 0u8],
        action is Finished <==> written is Some,
        written == Some(false) ==> action->Finished_0 is WriteFailed,
        written == Some(true) ==> {
            &&& action->Finished_0 is Disabled
            &&& action->Finished_0->Disabled_0 is Some <==> value is Some
            &&& value is Some ==> action->Finished_0->Disabled_0->0.kind == value->0.kind
                && action->Finished_0->Disabled_0->0.bytes@ == value->0.bytes
        },
{
}

/// The count of successes adds up over any two parts of the outcomes, and counts a success once
/// and a failure not at all.
pub proof fn law_successes_add_up(a: Seq<bool>, b: Seq<bool>)
    ensures
        success_count(a + b) == success_count(a) + success_count(b),
        success_count(seq![true]) == 1,
        success_count(seq![false]) == 0,
    decreases b.len(),
{
    reveal_with_fuel(success_count, 2);
    assert(seq![true].drop_last() =~= Seq::<bool>::empty());
    assert(seq![false].drop_last() =~= Seq::<bool>::empty());
    if b.len() == 0 {
        assert(a + b =~= a);
    } else {
        law_successes_add_up(a, b.drop_last());
        assert((a + b).drop_last() =~= a + b.drop_last());
    }
}

/// What came of disabling stands for its kind and, for a sound that was disabled, for the value
/// it had, with its type and bytes.
pub proof fn law_attempt_view(attempts: Seq<DisableAttempt>, i: int)
    requires
        0 <= i < attempts.len(),
    ensures
        attempts_view(attempts).len() == attempts.len(),
        attempts_view(attempts)[i] is Disabled <==> attempts[i] is Disabled,
        attempts_view(attempts)[i] is OpenFailed <==> attempts[i] is OpenFailed,
        attempts_view(attempts)[i] is ReadFailed <==> attempts[i] is ReadFailed,
        attempts[i] is Disabled ==> {
            let value = attempts[i]->Disabled_0;
            let view = attempts_view(attempts)[i]->Disabled_0;
            &&& view is Some <==> value is Some
            &&& value is Some ==> view->0.kind == value->0.kind && view->0.bytes
                == value->0.bytes@
        },
{
}

/// A restore step stands for its path and for what is done there, with the type and bytes of the
/// value that is set.
pub proof fn law_restore_step_view(step: RestoreStep)
    ensures
        step@.path == step.path@,
        step@.action is DeleteValue <==> step.action is DeleteValue,
        step.action is SetValue ==> step@.action->SetValue_0.kind == step.action->SetValue_0.kind
            && step@.action->SetValue_0.bytes == step.action->SetValue_0.bytes@,
{
}

} // verus!
