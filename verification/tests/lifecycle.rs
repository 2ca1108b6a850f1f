use tray_lifecycle::lifecycle::{
    Action, ApplicationMode, LaunchIntent, LifecycleController, LifecycleEvent,
};

fn no_policy_action(acts: &[Action]) -> bool {
    acts.iter()
        .all(|a| *a != Action::SetPolicyRegular && *a != Action::SetPolicyAccessory)
}

fn no_exit_action(acts: &[Action]) -> bool {
    acts.iter().all(|a| !matches!(a, Action::ExitProcess { .. }))
}

#[test]
fn cold_start_normal_shows_window() {
    let (c, acts) = LifecycleController::startup(LaunchIntent::StartNormal, true);
    assert_eq!(c.mode, ApplicationMode::Visible);
    assert!(c.running);
    assert!(c.window_visible);
    assert!(c.policy_regular);
    assert_eq!(acts, vec![Action::ShowWindow]);
    assert!(no_policy_action(&acts));
}

#[test]
fn cold_start_minimized_stays_hidden() {
    let (c, acts) = LifecycleController::startup(LaunchIntent::StartMinimized, true);
    assert_eq!(c.mode, ApplicationMode::Hidden);
    assert!(c.running);
    assert!(!c.window_visible);
    assert!(!c.policy_regular);
    assert_eq!(acts, vec![Action::SetPolicyAccessory]);
}

#[test]
fn cold_start_minimized_without_policy_concept() {
    let (c, acts) = LifecycleController::startup(LaunchIntent::StartMinimized, false);
    assert_eq!(c.mode, ApplicationMode::Hidden);
    assert!(acts.is_empty());
}

#[test]
fn close_request_hides_and_never_exits() {
    let (mut visible, _) = LifecycleController::startup(LaunchIntent::StartNormal, true);
    let acts = visible.on_close_requested();
    assert_eq!(visible.mode, ApplicationMode::Hidden);
    assert!(visible.running);
    assert_eq!(
        acts,
        vec![
            Action::PreventClose,
            Action::HideWindow,
            Action::SetPolicyAccessory,
        ]
    );
    assert!(no_exit_action(&acts));

    let (mut hidden, _) = LifecycleController::startup(LaunchIntent::StartMinimized, true);
    let acts = hidden.on_close_requested();
    assert_eq!(hidden.mode, ApplicationMode::Hidden);
    assert!(hidden.running);
    assert!(no_exit_action(&acts));
}

#[test]
fn tray_quit_exits_with_code_zero_and_stops() {
    let (mut c, _) = LifecycleController::startup(LaunchIntent::StartNormal, true);
    let acts = c.on_tray_quit();
    assert_eq!(acts, vec![Action::ExitProcess { code: 0 }]);
    assert!(!c.running);

    let after_quit = c;
    let later = c.on_tray_show();
    assert!(later.is_empty());
    assert_eq!(c, after_quit);
    let later = c.handle_event(LifecycleEvent::CloseRequested);
    assert!(later.is_empty());
    assert_eq!(c, after_quit);
}

#[test]
fn tray_show_from_hidden_sets_policy_before_show() {
    let (mut c, _) = LifecycleController::startup(LaunchIntent::StartMinimized, true);
    assert_eq!(c.mode, ApplicationMode::Hidden);
    let acts = c.on_tray_show();
    assert_eq!(c.mode, ApplicationMode::Visible);
    assert_eq!(
        acts,
        vec![
            Action::SetPolicyRegular,
            Action::ShowWindow,
            Action::UnminimizeWindow,
            Action::FocusWindow,
        ]
    );
    let regular = acts.iter().position(|a| *a == Action::SetPolicyRegular);
    let show = acts.iter().position(|a| *a == Action::ShowWindow);
    assert!(regular.unwrap() < show.unwrap());
}

#[test]
fn second_instance_from_hidden_surfaces_window() {
    let (mut c, _) = LifecycleController::startup(LaunchIntent::StartMinimized, true);
    let acts = c.on_second_instance();
    assert_eq!(c.mode, ApplicationMode::Visible);
    assert_eq!(
        acts,
        vec![
            Action::SetPolicyRegular,
            Action::ShowWindow,
            Action::UnminimizeWindow,
            Action::FocusWindow,
        ]
    );
}

#[test]
fn tray_show_while_visible_is_idempotent() {
    let (mut c, _) = LifecycleController::startup(LaunchIntent::StartNormal, true);
    let first = c.on_tray_show();
    let after_first = c;
    let second = c.on_tray_show();
    assert_eq!(c, after_first);
    assert_eq!(c.mode, ApplicationMode::Visible);
    assert_eq!(first, second);
    assert!(second.contains(&Action::FocusWindow));
    let shows = second.iter().filter(|a| **a == Action::ShowWindow).count();
    assert_eq!(shows, 1);
}

#[test]
fn platform_without_policy_concept_never_sets_policy() {
    let (mut c, acts) = LifecycleController::startup(LaunchIntent::StartNormal, false);
    assert!(no_policy_action(&acts));
    let acts = c.on_close_requested();
    assert!(no_policy_action(&acts));
    assert_eq!(acts, vec![Action::PreventClose, Action::HideWindow]);
    let acts = c.on_tray_show();
    assert!(no_policy_action(&acts));
    assert_eq!(
        acts,
        vec![
            Action::ShowWindow,
            Action::UnminimizeWindow,
            Action::FocusWindow,
        ]
    );
    let acts = c.on_second_instance();
    assert!(no_policy_action(&acts));
    let acts = c.on_tray_quit();
    assert!(no_policy_action(&acts));
}

#[test]
fn close_then_tray_show_reopens_window() {
    let (mut c, _) = LifecycleController::startup(LaunchIntent::StartNormal, true);
    assert_eq!(c.mode, ApplicationMode::Visible);
    c.on_close_requested();
    assert_eq!(c.mode, ApplicationMode::Hidden);
    c.on_tray_show();
    assert_eq!(c.mode, ApplicationMode::Visible);
    assert!(c.window_visible);
    assert!(c.policy_regular);
}

#[test]
fn tray_menu_dispatches_by_entry_id() {
    let (mut c, _) = LifecycleController::startup(LaunchIntent::StartMinimized, true);
    let acts = c.on_tray_menu_event("show");
    assert_eq!(c.mode, ApplicationMode::Visible);
    assert_eq!(
        acts,
        vec![
            Action::SetPolicyRegular,
            Action::ShowWindow,
            Action::UnminimizeWindow,
            Action::FocusWindow,
        ]
    );

    let before = c;
    let acts = c.on_tray_menu_event("settings");
    assert!(acts.is_empty());
    assert_eq!(c, before);

    let acts = c.on_tray_menu_event("quit");
    assert_eq!(acts, vec![Action::ExitProcess { code: 0 }]);
    assert!(!c.running);
}
