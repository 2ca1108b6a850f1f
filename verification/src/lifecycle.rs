//! The lifecycle state machine: modes, events, host actions, and the
//! transition rules that keep the window, the activation policy and the
//! process state consistent.

use vstd::prelude::*;

verus! {

/// Whether the application's main window is presented to the user.
#[derive(Clone, Copy, PartialEq, Eq, Structural, Debug)]
pub enum ApplicationMode {
    /// The main window is shown and the process has its regular
    /// dock/taskbar presence.
    Visible,
    /// The main window is hidden; on platforms with an activation-policy
    /// concept the process runs as an accessory, reachable only through
    /// its tray icon.
    Hidden,
}

/// How the process was asked to start, derived once from the launch
/// arguments and immutable afterwards.
#[derive(Clone, Copy, PartialEq, Eq, Structural, Debug)]
pub enum LaunchIntent {
    /// No "start minimized" flag: surface the main window right away.
    StartNormal,
    /// The "start minimized" flag was present: stay in the background.
    StartMinimized,
}

/// The external signals the controller reacts to once it is running.
#[derive(Clone, Copy, PartialEq, Eq, Structural, Debug)]
pub enum LifecycleEvent {
    /// The user tried to launch a second copy of the application.
    SecondInstance,
    /// The user picked the tray menu's "show" entry.
    TrayShow,
    /// The user picked the tray menu's "quit" entry.
    TrayQuit,
    /// The user clicked the main window's close control.
    CloseRequested,
}

/// One best-effort request to the host windowing runtime. The host performs
/// each request in order and ignores individual failures (a missing window
/// or an unsupported platform capability must never crash the process).
#[derive(Clone, Copy, PartialEq, Eq, Structural, Debug)]
pub enum Action {
    /// Give the process its regular dock/taskbar presence.
    SetPolicyRegular,
    /// Remove the process from the dock/taskbar; the tray icon remains.
    SetPolicyAccessory,
    /// Make the main window visible.
    ShowWindow,
    /// Restore the main window if it was minimized.
    UnminimizeWindow,
    /// Move input focus to the main window.
    FocusWindow,
    /// Hide the main window while the process keeps running.
    HideWindow,
    /// Suppress the default effect of a window close request.
    PreventClose,
    /// Terminate the process with the given status code.
    ExitProcess { code: i32 },
}

/// The lifecycle controller: the single owner of the application's
/// visibility state.
///
/// `window_visible` and `policy_regular` track the host state that the
/// actions emitted so far are intended to establish; `running` is false only
/// after a quit was requested, after which no further transition does
/// anything.
#[derive(Clone, Copy, PartialEq, Eq, Structural, Debug)]
pub struct LifecycleController {
    /// The current mode, mutated only by the transitions below.
    pub mode: ApplicationMode,
    /// Whether this platform distinguishes regular from accessory
    /// activation; where it does not, every policy step is skipped.
    pub has_activation_policy: bool,
    /// False once the tray "quit" entry was selected.
    pub running: bool,
    /// Whether the emitted actions leave the main window visible.
    pub window_visible: bool,
    /// Whether the emitted actions leave the activation policy at
    /// "regular" (or at the platform default where the concept is absent).
    pub policy_regular: bool,
}

impl LifecycleController {
    /// The mode, the window and the activation policy agree: while the
    /// process runs, the window is visible exactly in mode `Visible`, and on
    /// platforms with an activation-policy concept the policy is regular
    /// exactly in mode `Visible`. Platforms without the concept keep their
    /// default (regular) presence.
    pub open spec fn wf(self) -> bool {
        self.running ==> {
            &&& (self.window_visible <==> self.mode is Visible)
            &&& (self.has_activation_policy ==> (self.policy_regular <==> self.mode is Visible))
            &&& (!self.has_activation_policy ==> self.policy_regular)
        }
    }

    /// The state the controller starts in for a given launch intent.
    pub open spec fn spec_startup(intent: LaunchIntent, has_activation_policy: bool) -> LifecycleController {
        match intent {
            LaunchIntent::StartMinimized => LifecycleController {
                mode: ApplicationMode::Hidden,
                has_activation_policy,
                running: true,
                window_visible: false,
                policy_regular: !has_activation_policy,
            },
            LaunchIntent::StartNormal => LifecycleController {
                mode: ApplicationMode::Visible,
                has_activation_policy,
                running: true,
                window_visible: true,
                policy_regular: true,
            },
        }
    }

    /// The host requests that realise the initial state: a minimized start
    /// only demotes the activation policy (where the platform has one) and
    /// never shows the window; a normal start only shows the window and
    /// leaves the policy at its regular default.
    pub open spec fn spec_startup_actions(intent: LaunchIntent, has_activation_policy: bool) -> Seq<Action> {
        match intent {
            LaunchIntent::StartMinimized => if has_activation_policy {
                seq![Action::SetPolicyAccessory]
            } else {
                Seq::<Action>::empty()
            },
            LaunchIntent::StartNormal => seq![Action::ShowWindow],
        }
    }

    /// The successor state for one event. Events delivered after a quit
    /// change nothing.
    pub open spec fn spec_step(self, event: LifecycleEvent) -> LifecycleController {
        if !self.running {
            self
        } else {
            match event {
                LifecycleEvent::SecondInstance | LifecycleEvent::TrayShow => LifecycleController {
                    mode: ApplicationMode::Visible,
                    window_visible: true,
                    policy_regular: if self.has_activation_policy { true } else { self.policy_regular },
                    ..self
                },
                LifecycleEvent::TrayQuit => LifecycleController { running: false, ..self },
                LifecycleEvent::CloseRequested => LifecycleController {
                    mode: ApplicationMode::Hidden,
                    window_visible: false,
                    policy_regular: if self.has_activation_policy { false } else { self.policy_regular },
                    ..self
                },
            }
        }
    }

    /// The ordered host requests for one event. Surfacing the window sets
    /// the activation policy to regular strictly before the show call, so
    /// the window can take focus; a close request first suppresses the
    /// default close, then hides, then demotes the policy; quit emits
    /// exactly one process-exit request. Events delivered after a quit emit
    /// nothing.
    pub open spec fn spec_step_actions(self, event: LifecycleEvent) -> Seq<Action> {
        if !self.running {
            Seq::<Action>::empty()
        } else {
            match event {
                LifecycleEvent::SecondInstance | LifecycleEvent::TrayShow => (if self.has_activation_policy {
                    seq![Action::SetPolicyRegular]
                } else {
                    Seq::<Action>::empty()
                }) + seq![Action::ShowWindow, Action::UnminimizeWindow, Action::FocusWindow],
                LifecycleEvent::TrayQuit => seq![Action::ExitProcess { code: 0 }],
                LifecycleEvent::CloseRequested => seq![Action::PreventClose, Action::HideWindow]
                    + (if self.has_activation_policy {
                        seq![Action::SetPolicyAccessory]
                    } else {
                        Seq::<Action>::empty()
                    }),
            }
        }
    }

    /// Build the controller's initial state from the launch intent,
    /// returning it together with the requests the host must perform to
    /// realise that state.
    pub fn startup(intent: LaunchIntent, has_activation_policy: bool) -> (r: (LifecycleController, Vec<Action>))
        ensures
            r.0 == Self::spec_startup(intent, has_activation_policy),
            r.1@ == Self::spec_startup_actions(intent, has_activation_policy),
            r.0.wf(),
    {
        let mut acts: Vec<Action> = Vec::new();
        match intent {
            LaunchIntent::StartMinimized => {
                if has_activation_policy {
                    acts.push(Action::SetPolicyAccessory);
                }
                let c = LifecycleController {
                    mode: ApplicationMode::Hidden,
                    has_activation_policy,
                    running: true,
                    window_visible: false,
                    policy_regular: !has_activation_policy,
                };
                proof {
                    assert(acts@ =~= Self::spec_startup_actions(intent, has_activation_policy));
                }
                (c, acts)
            }
            LaunchIntent::StartNormal => {
                acts.push(Action::ShowWindow);
                let c = LifecycleController {
                    mode: ApplicationMode::Visible,
                    has_activation_policy,
                    running: true,
                    window_visible: true,
                    policy_regular: true,
                };
                proof {
                    assert(acts@ =~= Self::spec_startup_actions(intent, has_activation_policy));
                }
                (c, acts)
            }
        }
    }

    /// Apply one event: move to the successor state and return the ordered
    /// host requests of that transition.
    pub fn handle_event(&mut self, event: LifecycleEvent) -> (acts: Vec<Action>)
        ensures
            *final(self) == old(self).spec_step(event),
            acts@ == old(self).spec_step_actions(event),
            old(self).wf() ==> final(self).wf(),
    {
        let mut acts: Vec<Action> = Vec::new();
        if !self.running {
            proof {
                assert(acts@ =~= old(self).spec_step_actions(event));
            }
            return acts;
        }
        match event {
            LifecycleEvent::SecondInstance | LifecycleEvent::TrayShow => {
                if self.has_activation_policy {
                    acts.push(Action::SetPolicyRegular);
                    self.policy_regular = true;
                }
                acts.push(Action::ShowWindow);
                acts.push(Action::UnminimizeWindow);
                acts.push(Action::FocusWindow);
                self.mode = ApplicationMode::Visible;
                self.window_visible = true;
            }
            LifecycleEvent::TrayQuit => {
                acts.push(Action::ExitProcess { code: 0 });
                self.running = false;
            }
            LifecycleEvent::CloseRequested => {
                acts.push(Action::PreventClose);
                acts.push(Action::HideWindow);
                self.mode = ApplicationMode::Hidden;
                self.window_visible = false;
                if self.has_activation_policy {
                    acts.push(Action::SetPolicyAccessory);
                    self.policy_regular = false;
                }
            }
        }
        proof {
            assert(acts@ =~= old(self).spec_step_actions(event));
        }
        acts
    }

    /// The single-instance guard's callback: a second launch attempt
    /// surfaces the already-running application.
    pub fn on_second_instance(&mut self) -> (acts: Vec<Action>)
        ensures
            *final(self) == old(self).spec_step(LifecycleEvent::SecondInstance),
            acts@ == old(self).spec_step_actions(LifecycleEvent::SecondInstance),
            old(self).wf() ==> final(self).wf(),
    {
        self.handle_event(LifecycleEvent::SecondInstance)
    }

    /// The tray menu's "show" entry was selected.
    pub fn on_tray_show(&mut self) -> (acts: Vec<Action>)
        ensures
            *final(self) == old(self).spec_step(LifecycleEvent::TrayShow),
            acts@ == old(self).spec_step_actions(LifecycleEvent::TrayShow),
            old(self).wf() ==> final(self).wf(),
    {
        self.handle_event(LifecycleEvent::TrayShow)
    }

    /// The tray menu's "quit" entry was selected.
    pub fn on_tray_quit(&mut self) -> (acts: Vec<Action>)
        ensures
            *final(self) == old(self).spec_step(LifecycleEvent::TrayQuit),
            acts@ == old(self).spec_step_actions(LifecycleEvent::TrayQuit),
            old(self).wf() ==> final(self).wf(),
    {
        self.handle_event(LifecycleEvent::TrayQuit)
    }

    /// The user clicked the main window's close control.
    pub fn on_close_requested(&mut self) -> (acts: Vec<Action>)
        ensures
            *final(self) == old(self).spec_step(LifecycleEvent::CloseRequested),
            acts@ == old(self).spec_step_actions(LifecycleEvent::CloseRequested),
            old(self).wf() ==> final(self).wf(),
    {
        self.handle_event(LifecycleEvent::CloseRequested)
    }

    /// The identifier of the tray menu entry that surfaces the window.
    pub open spec fn show_menu_id() -> Seq<char> {
        "show"@
    }

    /// The identifier of the tray menu entry that quits the application.
    pub open spec fn quit_menu_id() -> Seq<char> {
        "quit"@
    }

    /// Dispatch a tray menu selection by its entry identifier: "show"
    /// surfaces the window, "quit" exits, and any other identifier is
    /// ignored.
    pub fn on_tray_menu_event(&mut self, id: &str) -> (acts: Vec<Action>)
        ensures
            id@ == Self::show_menu_id() ==> *final(self) == old(self).spec_step(LifecycleEvent::TrayShow)
                && acts@ == old(self).spec_step_actions(LifecycleEvent::TrayShow),
            id@ == Self::quit_menu_id() ==> *final(self) == old(self).spec_step(LifecycleEvent::TrayQuit)
                && acts@ == old(self).spec_step_actions(LifecycleEvent::TrayQuit),
            (id@ != Self::show_menu_id() && id@ != Self::quit_menu_id()) ==> *final(self) == *old(self)
                && acts@ == Seq::<Action>::empty(),
            old(self).wf() ==> final(self).wf(),
    {
        proof {
            reveal_strlit("show");
            reveal_strlit("quit");
            assert(Self::show_menu_id()[0] != Self::quit_menu_id()[0]);
        }
        let selected: String = String::from_str(id);
        let show_id: String = String::from_str("show");
        let quit_id: String = String::from_str("quit");
        if selected.eq(&show_id) {
            self.handle_event(LifecycleEvent::TrayShow)
        } else if selected.eq(&quit_id) {
            self.handle_event(LifecycleEvent::TrayQuit)
        } else {
            let acts: Vec<Action> = Vec::new();
            proof {
                assert(acts@ =~= Seq::<Action>::empty());
            }
            acts
        }
    }
}

} // verus!
