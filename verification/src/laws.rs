//! The behavioural laws of the lifecycle controller, each proved once and
//! for all over the transition relation.

use vstd::prelude::*;

use crate::launch::{args_request_minimized, spec_launch_intent};
use crate::lifecycle::{Action, LaunchIntent, LifecycleController, LifecycleEvent};

verus! {

/// An argument list with the minimized flag always starts the application
/// hidden; one without it always starts it visible.
pub proof fn lemma_launch_arguments_determine_mode(args: Seq<String>, has_activation_policy: bool)
    ensures
        args_request_minimized(args) ==> LifecycleController::spec_startup(
            spec_launch_intent(args),
            has_activation_policy,
        ).mode is Hidden,
        !args_request_minimized(args) ==> LifecycleController::spec_startup(
            spec_launch_intent(args),
            has_activation_policy,
        ).mode is Visible,
{
}

/// Startup establishes the consistency of mode, window and activation
/// policy, whatever the intent and the platform.
pub proof fn lemma_startup_establishes_wf(intent: LaunchIntent, has_activation_policy: bool)
    ensures
        LifecycleController::spec_startup(intent, has_activation_policy).wf(),
{
}

/// Every transition preserves the consistency of mode, window and
/// activation policy.
pub proof fn lemma_step_preserves_wf(c: LifecycleController, event: LifecycleEvent)
    requires
        c.wf(),
    ensures
        c.spec_step(event).wf(),
{
}

/// A window close request, from any mode, always yields mode `Hidden`,
/// keeps the process running, suppresses the default close, and never
/// requests a process exit.
pub proof fn lemma_close_request_hides_and_never_exits(c: LifecycleController)
    requires
        c.running,
    ensures
        c.spec_step(LifecycleEvent::CloseRequested).mode is Hidden,
        c.spec_step(LifecycleEvent::CloseRequested).running,
        c.spec_step_actions(LifecycleEvent::CloseRequested)[0] == Action::PreventClose,
        forall|i: int|
            0 <= i < c.spec_step_actions(LifecycleEvent::CloseRequested).len()
                ==> !(#[trigger] c.spec_step_actions(LifecycleEvent::CloseRequested)[i] is ExitProcess),
{
    let acts = c.spec_step_actions(LifecycleEvent::CloseRequested);
    assert forall|i: int| 0 <= i < acts.len() implies !(#[trigger] acts[i] is ExitProcess) by {
        if c.has_activation_policy {
            assert(acts =~= seq![Action::PreventClose, Action::HideWindow, Action::SetPolicyAccessory]);
        } else {
            assert(acts =~= seq![Action::PreventClose, Action::HideWindow]);
        }
    }
}

/// The tray "quit" selection, from any mode, requests exactly one process
/// exit with status code zero, and afterwards no transition runs: every
/// later event leaves the state unchanged and emits no request.
pub proof fn lemma_quit_exits_once_and_finally(c: LifecycleController, later: LifecycleEvent)
    requires
        c.running,
    ensures
        c.spec_step_actions(LifecycleEvent::TrayQuit) =~= seq![Action::ExitProcess { code: 0 }],
        !c.spec_step(LifecycleEvent::TrayQuit).running,
        c.spec_step(LifecycleEvent::TrayQuit).spec_step(later) == c.spec_step(LifecycleEvent::TrayQuit),
        c.spec_step(LifecycleEvent::TrayQuit).spec_step_actions(later) =~= Seq::<Action>::empty(),
{
}

/// Surfacing the window from `Hidden` — by the tray "show" selection or by
/// a second-instance notification — yields mode `Visible`; on platforms
/// with an activation-policy concept the policy is set to regular strictly
/// before the window-show request, and on every platform the show request
/// comes before the focus request.
pub proof fn lemma_surfacing_from_hidden(c: LifecycleController, event: LifecycleEvent)
    requires
        c.running,
        c.mode is Hidden,
        event is TrayShow || event is SecondInstance,
    ensures
        c.spec_step(event).mode is Visible,
        c.spec_step(event).window_visible,
        c.has_activation_policy ==> c.spec_step_actions(event) =~= seq![
            Action::SetPolicyRegular,
            Action::ShowWindow,
            Action::UnminimizeWindow,
            Action::FocusWindow,
        ],
        !c.has_activation_policy ==> c.spec_step_actions(event) =~= seq![
            Action::ShowWindow,
            Action::UnminimizeWindow,
            Action::FocusWindow,
        ],
        forall|i: int, j: int|
            (0 <= i < c.spec_step_actions(event).len()
                && 0 <= j < c.spec_step_actions(event).len()
                && #[trigger] c.spec_step_actions(event)[i] is SetPolicyRegular
                && #[trigger] c.spec_step_actions(event)[j] is ShowWindow) ==> i < j,
{
}

/// The tray "show" selection is idempotent: from a consistent `Visible`
/// state it changes nothing, it still refocuses the window, and it never
/// requests a second window — one show request per transition, aimed at
/// the one main window.
pub proof fn lemma_tray_show_idempotent(c: LifecycleController)
    requires
        c.wf(),
        c.running,
        c.mode is Visible,
    ensures
        c.spec_step(LifecycleEvent::TrayShow) == c,
        c.spec_step_actions(LifecycleEvent::TrayShow)
            =~= c.spec_step(LifecycleEvent::TrayShow).spec_step_actions(LifecycleEvent::TrayShow),
        c.spec_step_actions(LifecycleEvent::TrayShow).last() == Action::FocusWindow,
        exists|i: int|
            0 <= i < c.spec_step_actions(LifecycleEvent::TrayShow).len()
                && #[trigger] c.spec_step_actions(LifecycleEvent::TrayShow)[i] is ShowWindow,
        forall|i: int, j: int|
            (0 <= i < c.spec_step_actions(LifecycleEvent::TrayShow).len()
                && 0 <= j < c.spec_step_actions(LifecycleEvent::TrayShow).len()
                && #[trigger] c.spec_step_actions(LifecycleEvent::TrayShow)[i] is ShowWindow
                && #[trigger] c.spec_step_actions(LifecycleEvent::TrayShow)[j] is ShowWindow) ==> i == j,
{
    let acts = c.spec_step_actions(LifecycleEvent::TrayShow);
    if c.has_activation_policy {
        assert(acts[1] is ShowWindow);
    } else {
        assert(acts[0] is ShowWindow);
    }
}

/// On a platform without an activation-policy concept, no transition and
/// no startup ever requests a policy change: only show, hide, unminimize,
/// focus, prevent-close and exit requests are emitted.
pub proof fn lemma_no_policy_platform_skips_policy(
    intent: LaunchIntent,
    c: LifecycleController,
    event: LifecycleEvent,
)
    requires
        !c.has_activation_policy,
    ensures
        forall|i: int|
            0 <= i < LifecycleController::spec_startup_actions(intent, false).len()
                ==> !(#[trigger] LifecycleController::spec_startup_actions(intent, false)[i] is SetPolicyRegular)
                    && !(LifecycleController::spec_startup_actions(intent, false)[i] is SetPolicyAccessory),
        forall|i: int|
            0 <= i < c.spec_step_actions(event).len()
                ==> !(#[trigger] c.spec_step_actions(event)[i] is SetPolicyRegular)
                    && !(c.spec_step_actions(event)[i] is SetPolicyAccessory),
{
}

} // verus!
