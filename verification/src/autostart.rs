//! Starting on login: the systemd user service and the steps to enable or disable it.

use vstd::prelude::*;

verus! {

/// Result of an auto-start toggle. On Linux it arrives a while after the toggle, because
/// `systemctl` may take seconds.
#[derive(Debug)]
pub struct AutoStartOutcome {
    pub enabled: bool,
    pub result: Result<(), String>,
}

/// What has happened so far on the way to enable or disable auto-start.
#[derive(Debug)]
pub enum AutoStartEvent {
    /// The toggle, and whether the configuration directory is known.
    Toggled { config_dir_known: bool },
    /// The unit file was written, or the message of the error.
    UnitWritten(Result<(), String>),
    /// The unit file was removed, if there was one.
    UnitRemoved,
    SystemctlDone(Result<(), String>),
    /// The registry was updated, or the message of the error.
    RegistryUpdated(Result<(), String>),
}

/// What to do next.
#[derive(Debug)]
pub enum AutoStartAction {
    /// Write the unit file, with the directories above it.
    WriteUnit,
    /// Remove the unit file; that it does not exist is no matter.
    RemoveUnit,
    /// Run `systemctl` with this action, away from the tray.
    Systemctl { enable: bool },
    Report(AutoStartOutcome),
}

/// An action by its contents.
#[verifier::ext_equal]
pub enum ActionView {
    WriteUnit,
    RemoveUnit,
    Systemctl { enable: bool },
    Report { enabled: bool, result: Result<(), Seq<char>> },
}

/// A result with the contents of its message.
pub open spec fn result_view(result: Result<(), String>) -> Result<(), Seq<char>> {
    match result {
        Ok(()) => Ok(()),
        Err(e) => Err(e@),
    }
}

impl View for AutoStartAction {
    type V = ActionView;

    open spec fn view(&self) -> ActionView {
        match self {
            AutoStartAction::WriteUnit => ActionView::WriteUnit,
            AutoStartAction::RemoveUnit => ActionView::RemoveUnit,
            AutoStartAction::Systemctl { enable } => ActionView::Systemctl { enable: *enable },
            AutoStartAction::Report(outcome) => ActionView::Report {
                enabled: outcome.enabled,
                result: result_view(outcome.result),
            },
        }
    }
}

/// The action after an event on the way to enable or disable auto-start.
pub open spec fn auto_start_step(enabled: bool, event: AutoStartEvent) -> ActionView {
    match event {
        AutoStartEvent::Toggled { config_dir_known } => if !config_dir_known {
            ActionView::Report { enabled, result: Err("Could not determine config dir"@) }
        } else if enabled {
            ActionView::WriteUnit
        } else {
            ActionView::RemoveUnit
        },
        AutoStartEvent::UnitWritten(Ok(())) => ActionView::Systemctl { enable: true },
        AutoStartEvent::UnitWritten(Err(e)) => ActionView::Report { enabled, result: Err(e@) },
        AutoStartEvent::UnitRemoved => ActionView::Systemctl { enable: false },
        AutoStartEvent::SystemctlDone(result) => ActionView::Report {
            enabled,
            result: if enabled {
                result_view(result)
            } else {
                Ok(())
            },
        },
        AutoStartEvent::RegistryUpdated(result) => ActionView::Report {
            enabled,
            result: result_view(result),
        },
    }
}

/// The next step to enable or disable auto-start. Enabling fails where the unit file cannot be
/// written or `systemctl` fails; disabling removes the unit file, which is what counts, so that a
/// failure of `systemctl` does not matter then.
pub fn set_auto_start(enabled: bool, event: AutoStartEvent) -> (r: AutoStartAction)
    ensures
        r@ == auto_start_step(enabled, event),
{
    match event {
        AutoStartEvent::Toggled { config_dir_known } => if !config_dir_known {
            AutoStartAction::Report(
                AutoStartOutcome {
                    enabled,
                    result: Err("Could not determine config dir".to_owned()),
                },
            )
        } else if enabled {
            AutoStartAction::WriteUnit
        } else {
            AutoStartAction::RemoveUnit
        },
        AutoStartEvent::UnitWritten(Ok(())) => AutoStartAction::Systemctl { enable: true },
        AutoStartEvent::UnitWritten(Err(e)) => AutoStartAction::Report(
            AutoStartOutcome { enabled, result: Err(e) },
        ),
        AutoStartEvent::UnitRemoved => AutoStartAction::Systemctl { enable: false },
        AutoStartEvent::SystemctlDone(result) => AutoStartAction::Report(
            AutoStartOutcome { enabled, result: if enabled { result } else { Ok(()) } },
        ),
        AutoStartEvent::RegistryUpdated(result) => AutoStartAction::Report(
            AutoStartOutcome { enabled, result },
        ),
    }
}

/// The text of the unit file that starts the program at `exe_path`.
pub open spec fn unit_text(exe_path: Seq<char>) -> Seq<char> {
    "[Unit]\nDescription=Corsair Void controller\n\n[Service]\nExecStart="@ + exe_path
        + "\nRestart=on-failure\n\n[Install]\nWantedBy=default.target\n"@
}

/// The unit file that starts the program at `exe_path`.
pub fn unit_file(exe_path: &str) -> (r: String)
    ensures
        r@ == unit_text(exe_path@),
{
    let mut out = "[Unit]\nDescription=Corsair Void controller\n\n[Service]\nExecStart=".to_owned();
    out.append(exe_path);
    out.append("\nRestart=on-failure\n\n[Install]\nWantedBy=default.target\n");
    out
}

/// How a run of `systemctl` has ended.
#[derive(Debug)]
pub enum SystemctlRun {
    Success,
    /// It failed; holds the text of its exit status.
    Exited(String),
    /// It could not be run; holds the message of the error.
    NotRun(String),
}

/// The `systemctl` action that enables or disables a unit.
pub open spec fn systemctl_action_text(enable: bool) -> Seq<char> {
    if enable {
        "enable"@
    } else {
        "disable"@
    }
}

/// The `systemctl` action that enables or disables a unit.
pub fn systemctl_action(enable: bool) -> (r: &'static str)
    ensures
        r@ == systemctl_action_text(enable),
{
    if enable {
        "enable"
    } else {
        "disable"
    }
}

/// What a run of `systemctl` means for the toggle.
pub fn run_systemctl(enable: bool, run: SystemctlRun) -> (r: Result<(), String>)
    ensures
        match run {
            SystemctlRun::Success => r is Ok,
            SystemctlRun::Exited(status) => r matches Err(e) && e@ == "systemctl "@
                + systemctl_action_text(enable) + " exited with "@ + status@,
            SystemctlRun::NotRun(msg) => r matches Err(e) && e@ == "failed to run systemctl: "@
                + msg@,
        },
{
    match run {
        SystemctlRun::Success => Ok(()),
        SystemctlRun::Exited(status) => {
            let mut out = "systemctl ".to_owned();
            out.append(systemctl_action(enable));
            out.append(" exited with ");
            out.append(status.as_str());
            Err(out)
        },
        SystemctlRun::NotRun(msg) => {
            let mut out = "failed to run systemctl: ".to_owned();
            out.append(msg.as_str());
            Err(out)
        },
    }
}

/// The event can happen to the toggle: only enabling writes a unit file, and only disabling removes
/// one.
pub open spec fn concerns(event: AutoStartEvent, enabled: bool) -> bool {
    match event {
        AutoStartEvent::UnitWritten(_) => enabled,
        AutoStartEvent::UnitRemoved => !enabled,
        _ => true,
    }
}

/// The event is an answer to the action. A report has none.
pub open spec fn answers(event: AutoStartEvent, action: ActionView) -> bool {
    match action {
        ActionView::WriteUnit => event is UnitWritten,
        ActionView::RemoveUnit => event is UnitRemoved,
        ActionView::Systemctl { .. } => event is SystemctlDone,
        ActionView::Report { .. } => false,
    }
}

/// How many steps an action is away from the report at most.
pub open spec fn steps_left(action: ActionView) -> nat {
    match action {
        ActionView::WriteUnit | ActionView::RemoveUnit => 2,
        ActionView::Systemctl { .. } => 1,
        ActionView::Report { .. } => 0,
    }
}

/// Every toggle ends with exactly one outcome, and it is for what was toggled: each answer to an
/// action concerns the toggle and brings the report nearer, nothing answers a report, and only a
/// report is no steps away from the end.
pub proof fn toggles_end_with_one_outcome(
    enabled: bool,
    event: AutoStartEvent,
    answer: AutoStartEvent,
)
    requires
        concerns(event, enabled),
    ensures
        ({
            let action = auto_start_step(enabled, event);
            let next = auto_start_step(enabled, answer);
            &&& action matches ActionView::Report { enabled: reported, .. } ==> reported == enabled
            &&& action matches ActionView::Systemctl { enable } ==> enable == enabled
            &&& steps_left(action) == 0 <==> action is Report
            &&& action is Report ==> !answers(answer, action)
            &&& answers(answer, action) ==> concerns(answer, enabled) && steps_left(next)
                < steps_left(action)
        }),
{
}

/// What came of a toggle is reported as it happened: auto-start is on only once the unit was written
/// and enabled, or the registry updated, and each failure is told in its own words. Where the
/// directory is known, switching off always succeeds.
pub proof fn outcomes_are_reported(enabled: bool, error: String)
    ensures
        auto_start_step(true, AutoStartEvent::UnitWritten(Ok(()))) == (ActionView::Systemctl {
            enable: true,
        }),
        auto_start_step(true, AutoStartEvent::UnitWritten(Err(error))) == (ActionView::Report {
            enabled: true,
            result: Err(error@),
        }),
        auto_start_step(true, AutoStartEvent::SystemctlDone(Ok(()))) == (ActionView::Report {
            enabled: true,
            result: Ok(()),
        }),
        auto_start_step(true, AutoStartEvent::SystemctlDone(Err(error))) == (ActionView::Report {
            enabled: true,
            result: Err(error@),
        }),
        auto_start_step(false, AutoStartEvent::UnitRemoved) == (ActionView::Systemctl {
            enable: false,
        }),
        auto_start_step(false, AutoStartEvent::SystemctlDone(Err(error))) == (ActionView::Report {
            enabled: false,
            result: Ok(()),
        }),
        auto_start_step(enabled, AutoStartEvent::RegistryUpdated(Err(error))) == (
        ActionView::Report { enabled, result: Err(error@) }),
        auto_start_step(enabled, AutoStartEvent::RegistryUpdated(Ok(()))) == (ActionView::Report {
            enabled,
            result: Ok(()),
        }),
{
}

/// The unit starts the program from its path, whatever that is, and differs between paths only
/// there.
pub proof fn units_start_the_program(a: Seq<char>, b: Seq<char>)
    ensures
        ({
            let start = "[Unit]\nDescription=Corsair Void controller\n\n[Service]\nExecStart="@.len();
            &&& unit_text(a).subrange(start as int, (start + a.len()) as int) == a
            &&& unit_text(a).take(start as int) == unit_text(b).take(start as int)
            &&& unit_text(a).skip((start + a.len()) as int) == unit_text(b).skip(
                (start + b.len()) as int,
            )
        }),
{
    let head = "[Unit]\nDescription=Corsair Void controller\n\n[Service]\nExecStart="@;
    let tail = "\nRestart=on-failure\n\n[Install]\nWantedBy=default.target\n"@;
    assert(unit_text(a).skip((head.len() + a.len()) as int) == tail);
    assert(unit_text(b).skip((head.len() + b.len()) as int) == tail);
    assert(unit_text(a).take(head.len() as int) == head);
    assert(unit_text(b).take(head.len() as int) == head);
}

/// A run of `systemctl` counts as a success only if it was one, and otherwise its own words are at
/// the end of what is told.
pub proof fn runs_are_judged(
    enable: bool,
    status: String,
    exited: Result<(), String>,
    not_run: Result<(), String>,
    success: Result<(), String>,
)
    requires
        call_ensures(run_systemctl, (enable, SystemctlRun::Exited(status)), exited),
        call_ensures(run_systemctl, (enable, SystemctlRun::NotRun(status)), not_run),
        call_ensures(run_systemctl, (enable, SystemctlRun::Success), success),
    ensures
        success is Ok,
        exited matches Err(e) && e@.len() >= status@.len() && e@.skip(
            e@.len() - status@.len(),
        ) == status@,
        not_run matches Err(e) && e@.len() >= status@.len() && e@.skip(
            e@.len() - status@.len(),
        ) == status@,
{
}

} // verus!
