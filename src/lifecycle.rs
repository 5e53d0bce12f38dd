use vstd::prelude::*;

use crate::action::{action_named, ActionRouter, AppAction};

verus! {

/// Where the process stands in its life.
#[derive(Clone, Copy, Debug, PartialEq, Eq, Structural)]
pub enum Phase {
    Created,
    Started,
    Activated,
    ShuttingDown,
    Terminated,
}

/// One piece of process-wide setup that the host performs at startup.
#[derive(Clone, Copy, Debug, PartialEq, Eq, Structural)]
pub enum SetupStep {
    SetDefaultIcon,
    InstallStylesheet,
    RegisterAction(AppAction),
    RegisterAccelerators,
}

/// What the host does with the window on an activation.
#[derive(Clone, Copy, Debug, PartialEq, Eq, Structural)]
pub enum Activation {
    /// The window exists: raise and present it.
    Resurface,
    /// Construct the window and present it.
    CreateAndPresent,
    /// Construct the window and leave it unpresented.
    CreateHidden,
}

/// A request to the host, issued by an action handler.
#[derive(Clone, Copy, Debug, PartialEq, Eq, Structural)]
pub enum Command {
    /// Set the window's quit-intent flag, so that closing it ends the process.
    SetQuitIntent,
    CloseWindow,
    QuitApplication,
    ShowAbout,
}

/// A signal that the host delivers to the controller.
#[derive(Clone, Copy, Debug, PartialEq, Eq, Structural)]
pub enum Event {
    Startup,
    LocalOptions(bool),
    Activate,
    Invoke(AppAction),
    Shutdown,
}

/// The abstract state of the controller.
pub struct LifecycleModel {
    pub phase: Phase,
    pub background: bool,
    pub window: bool,
    pub quit_intent: bool,
    pub actions: Seq<AppAction>,
}

/// The state of a fresh process.
pub open spec fn initial_model() -> LifecycleModel {
    LifecycleModel {
        phase: Phase::Created,
        background: false,
        window: false,
        quit_intent: false,
        actions: Seq::empty(),
    }
}

/// The registration step for `a`, if `a` is not yet registered in `actions`.
pub open spec fn registration(actions: Seq<AppAction>, a: AppAction) -> Seq<SetupStep> {
    if actions.contains(a) {
        Seq::empty()
    } else {
        seq![SetupStep::RegisterAction(a)]
    }
}

/// `actions` with `a` registered.
pub open spec fn registered(actions: Seq<AppAction>, a: AppAction) -> Seq<AppAction> {
    if actions.contains(a) {
        actions
    } else {
        actions.push(a)
    }
}

/// The setup that startup asks of the host, in order: icon, stylesheet, the
/// actions not registered yet, accelerators.
pub open spec fn startup_steps(actions: Seq<AppAction>) -> Seq<SetupStep> {
    seq![SetupStep::SetDefaultIcon, SetupStep::InstallStylesheet] + registration(
        actions,
        AppAction::Quit,
    ) + registration(actions, AppAction::About) + seq![SetupStep::RegisterAccelerators]
}

pub open spec fn after_startup(s: LifecycleModel) -> LifecycleModel {
    LifecycleModel {
        phase: if s.phase == Phase::Created {
            Phase::Started
        } else {
            s.phase
        },
        actions: registered(registered(s.actions, AppAction::Quit), AppAction::About),
        ..s
    }
}

pub open spec fn after_local_options(s: LifecycleModel, background: bool) -> LifecycleModel {
    LifecycleModel { background, ..s }
}

/// What an activation does with the window in state `s`.
pub open spec fn activation_of(s: LifecycleModel) -> Activation {
    if s.window {
        Activation::Resurface
    } else if s.background {
        Activation::CreateHidden
    } else {
        Activation::CreateAndPresent
    }
}

pub open spec fn after_activate(s: LifecycleModel) -> LifecycleModel {
    LifecycleModel {
        phase: match s.phase {
            Phase::ShuttingDown => Phase::ShuttingDown,
            Phase::Terminated => Phase::Terminated,
            _ => Phase::Activated,
        },
        window: true,
        ..s
    }
}

/// The requests that invoking `a` in state `s` makes of the host, in order.
pub open spec fn commands_of(s: LifecycleModel, a: AppAction) -> Seq<Command> {
    match a {
        AppAction::Quit => if s.window {
            seq![Command::SetQuitIntent, Command::CloseWindow, Command::QuitApplication]
        } else {
            seq![Command::QuitApplication]
        },
        AppAction::About => seq![Command::ShowAbout],
    }
}

pub open spec fn after_invoke(s: LifecycleModel, a: AppAction) -> LifecycleModel {
    match a {
        AppAction::Quit => LifecycleModel {
            phase: if s.phase == Phase::Terminated {
                Phase::Terminated
            } else {
                Phase::ShuttingDown
            },
            quit_intent: s.quit_intent || s.window,
            ..s
        },
        AppAction::About => s,
    }
}

pub open spec fn after_shutdown(s: LifecycleModel) -> LifecycleModel {
    LifecycleModel { phase: Phase::Terminated, ..s }
}

/// The state after the host delivers `e` in state `s`.
pub open spec fn step(s: LifecycleModel, e: Event) -> LifecycleModel {
    match e {
        Event::Startup => after_startup(s),
        Event::LocalOptions(b) => after_local_options(s, b),
        Event::Activate => after_activate(s),
        Event::Invoke(a) => after_invoke(s, a),
        Event::Shutdown => after_shutdown(s),
    }
}

/// The state after the host delivers `events` in order, from `s`.
pub open spec fn run(s: LifecycleModel, events: Seq<Event>) -> LifecycleModel
    decreases events.len(),
{
    if events.len() == 0 {
        s
    } else {
        run(step(s, events[0]), events.drop_first())
    }
}

/// Whether delivering `e` in state `s` constructs a window.
pub open spec fn constructs_window(s: LifecycleModel, e: Event) -> bool {
    e == Event::Activate && activation_of(s) != Activation::Resurface
}

/// How many windows are constructed while `events` are delivered from `s`.
pub open spec fn windows_constructed(s: LifecycleModel, events: Seq<Event>) -> nat
    decreases events.len(),
{
    if events.len() == 0 {
        0
    } else {
        (if constructs_window(s, events[0]) {
            1nat
        } else {
            0nat
        }) + windows_constructed(step(s, events[0]), events.drop_first())
    }
}

/// The lifecycle controller: the process-wide state behind the host's hooks.
#[derive(Debug)]
pub struct Lifecycle {
    phase: Phase,
    start_in_background: bool,
    window: bool,
    quit_intent: bool,
    router: ActionRouter,
}

impl View for Lifecycle {
    type V = LifecycleModel;

    closed spec fn view(&self) -> LifecycleModel {
        LifecycleModel {
            phase: self.phase,
            background: self.start_in_background,
            window: self.window,
            quit_intent: self.quit_intent,
            actions: self.router@,
        }
    }
}

impl Lifecycle {
    /// The router never holds an action twice.
    pub closed spec fn well_formed(&self) -> bool {
        self.router.well_formed()
    }

    /// A controller for a process that has not started yet.
    pub fn new() -> (r: Lifecycle)
        ensures
            r@ == initial_model(),
            r.well_formed(),
    {
        Lifecycle {
            phase: Phase::Created,
            start_in_background: false,
            window: false,
            quit_intent: false,
            router: ActionRouter::new(),
        }
    }

    /// The startup hook: registers the actions not registered yet and returns
    /// the setup that the host performs, in order. Never creates a window.
    pub fn startup(&mut self) -> (steps: Vec<SetupStep>)
        requires
            old(self).well_formed(),
        ensures
            final(self).well_formed(),
            final(self)@ == after_startup(old(self)@),
            steps@ == startup_steps(old(self)@.actions),
    {
        let ghost before = self@.actions;
        let mut steps: Vec<SetupStep> = Vec::new();
        steps.push(SetupStep::SetDefaultIcon);
        steps.push(SetupStep::InstallStylesheet);
        let ghost head = steps@;
        if self.router.register(AppAction::Quit) {
            steps.push(SetupStep::RegisterAction(AppAction::Quit));
        }
        let ghost mid = steps@;
        assert(mid =~= head + registration(before, AppAction::Quit));
        proof {
            if before.contains(AppAction::About) {
                assert(self.router@.contains(AppAction::About)) by {
                    let i = choose|i: int| 0 <= i < before.len() && before[i] == AppAction::About;
                    assert(self.router@[i] == AppAction::About);
                }
            } else {
                assert(!self.router@.contains(AppAction::About)) by {
                    if self.router@.contains(AppAction::About) {
                        let i = choose|i: int|
                            0 <= i < self.router@.len() && self.router@[i] == AppAction::About;
                        if i < before.len() {
                            assert(before[i] == AppAction::About);
                        }
                    }
                }
            }
        }
        if self.router.register(AppAction::About) {
            steps.push(SetupStep::RegisterAction(AppAction::About));
        }
        let ghost tail = steps@;
        assert(tail =~= mid + registration(before, AppAction::About));
        steps.push(SetupStep::RegisterAccelerators);
        assert(steps@ =~= startup_steps(before));
        if self.phase == Phase::Created {
            self.phase = Phase::Started;
        }
        steps
    }

    /// The local-options hook: records whether this invocation asked to start
    /// in the background, replacing what an earlier invocation asked.
    pub fn handle_local_options(&mut self, background: bool)
        requires
            old(self).well_formed(),
        ensures
            final(self).well_formed(),
            final(self)@ == after_local_options(old(self)@, background),
    {
        self.start_in_background = background;
    }

    /// The activation hook: an existing window is resurfaced; otherwise the
    /// window is constructed, and presented unless a background start was asked.
    pub fn activate(&mut self) -> (r: Activation)
        requires
            old(self).well_formed(),
        ensures
            final(self).well_formed(),
            final(self)@ == after_activate(old(self)@),
            r == activation_of(old(self)@),
    {
        let r = if self.window {
            Activation::Resurface
        } else if self.start_in_background {
            Activation::CreateHidden
        } else {
            Activation::CreateAndPresent
        };
        self.window = true;
        match self.phase {
            Phase::ShuttingDown | Phase::Terminated => {},
            _ => {
                self.phase = Phase::Activated;
            },
        }
        r
    }

    /// Invokes action `a` and returns the requests for the host, in the order in
    /// which it carries them out. Quitting with a window sets its quit intent
    /// before the close request, and asks the process to quit last.
    pub fn invoke(&mut self, a: AppAction) -> (commands: Vec<Command>)
        requires
            old(self).well_formed(),
        ensures
            final(self).well_formed(),
            final(self)@ == after_invoke(old(self)@, a),
            commands@ == commands_of(old(self)@, a),
    {
        match a {
            AppAction::Quit => {
                if self.phase != Phase::Terminated {
                    self.phase = Phase::ShuttingDown;
                }
                if self.window {
                    self.quit_intent = true;
                    vec![Command::SetQuitIntent, Command::CloseWindow, Command::QuitApplication]
                } else {
                    vec![Command::QuitApplication]
                }
            },
            AppAction::About => vec![Command::ShowAbout],
        }
    }

    /// Invokes the action registered under `name`; an unknown name does nothing.
    pub fn invoke_by_name(&mut self, name: &str) -> (commands: Vec<Command>)
        requires
            old(self).well_formed(),
        ensures
            final(self).well_formed(),
            match action_named(name@) {
                Some(a) => final(self)@ == after_invoke(old(self)@, a) && commands@ == commands_of(
                    old(self)@,
                    a,
                ),
                None => final(self)@ == old(self)@ && commands@.len() == 0,
            },
    {
        match AppAction::from_name(name) {
            Some(a) => self.invoke(a),
            None => Vec::new(),
        }
    }

    /// The shutdown hook.
    pub fn shutdown(&mut self)
        requires
            old(self).well_formed(),
        ensures
            final(self).well_formed(),
            final(self)@ == after_shutdown(old(self)@),
    {
        self.phase = Phase::Terminated;
    }

    /// Where the process stands in its life.
    pub fn phase(&self) -> (r: Phase)
        ensures
            r == self@.phase,
    {
        self.phase
    }

    /// Whether the most recent invocation asked to start in the background.
    pub fn start_in_background(&self) -> (r: bool)
        ensures
            r == self@.background,
    {
        self.start_in_background
    }

    /// Whether the window has been constructed.
    pub fn has_window(&self) -> (r: bool)
        ensures
            r == self@.window,
    {
        self.window
    }

    /// Whether the window's quit-intent flag has been set.
    pub fn quit_intent(&self) -> (r: bool)
        ensures
            r == self@.quit_intent,
    {
        self.quit_intent
    }

    /// How many times `a` is registered.
    pub fn registrations(&self, a: AppAction) -> (r: usize)
        requires
            self.well_formed(),
        ensures
            r == (if self@.actions.contains(a) { 1usize } else { 0usize }),
    {
        self.router.count_of(a)
    }
}

} // verus!
