use vstd::prelude::*;

use crate::action::{action_name, AppAction};
use crate::bootstrap::accelerator_table;
use crate::lifecycle::{
    activation_of, after_activate, after_invoke, after_local_options, after_startup, commands_of,
    constructs_window, registered, startup_steps, run, step, windows_constructed, Activation, Command, Event,
    LifecycleModel, Phase, SetupStep,
};

verus! {

/// Whether `events` holds an activation.
pub open spec fn has_activation(events: Seq<Event>) -> bool {
    exists|i: int| 0 <= i < events.len() && events[i] == Event::Activate
}

/// Once constructed, the window stays; without an activation none appears.
proof fn lemma_window_after_run(s: LifecycleModel, events: Seq<Event>)
    ensures
        run(s, events).window == (s.window || has_activation(events)),
    decreases events.len(),
{
    if events.len() > 0 {
        let rest = events.drop_first();
        lemma_window_after_run(step(s, events[0]), rest);
        if has_activation(rest) {
            let i = choose|i: int| 0 <= i < rest.len() && rest[i] == Event::Activate;
            assert(events[i + 1] == Event::Activate);
        }
        if has_activation(events) {
            let i = choose|i: int| 0 <= i < events.len() && events[i] == Event::Activate;
            if i > 0 {
                assert(rest[i - 1] == Event::Activate);
            }
        }
    }
}

/// Over any sequence of events, the windows constructed number one if the
/// sequence starts without a window and holds an activation, and none otherwise.
pub proof fn lemma_windows_constructed(s: LifecycleModel, events: Seq<Event>)
    ensures
        windows_constructed(s, events) == (if !s.window && has_activation(events) {
            1nat
        } else {
            0nat
        }),
    decreases events.len(),
{
    if events.len() > 0 {
        let e = events[0];
        let rest = events.drop_first();
        lemma_windows_constructed(step(s, e), rest);
        assert(step(s, e).window == (s.window || e == Event::Activate));
        if has_activation(rest) {
            let i = choose|i: int| 0 <= i < rest.len() && rest[i] == Event::Activate;
            assert(events[i + 1] == Event::Activate);
        }
        if has_activation(events) && e != Event::Activate {
            let i = choose|i: int| 0 <= i < events.len() && events[i] == Event::Activate;
            assert(rest[i - 1] == Event::Activate);
        }
    }
}

/// Singleton window: from a state without a window, any sequence of events
/// that holds at least one activation constructs exactly one window, and
/// leaves it in place.
pub proof fn lemma_single_window(s: LifecycleModel, events: Seq<Event>)
    requires
        !s.window,
        has_activation(events),
    ensures
        windows_constructed(s, events) == 1,
        run(s, events).window,
{
    lemma_windows_constructed(s, events);
    lemma_window_after_run(s, events);
}

/// Every activation after the first resurfaces the window already there.
pub proof fn lemma_later_activations_resurface(s: LifecycleModel, events: Seq<Event>)
    requires
        has_activation(events),
    ensures
        activation_of(run(run(s, events), seq![Event::Activate])) == Activation::Resurface,
        windows_constructed(run(s, events), seq![Event::Activate]) == 0,
{
    lemma_window_after_run(s, events);
    let t = run(s, events);
    let one = seq![Event::Activate];
    assert(one.drop_first() =~= Seq::<Event>::empty());
    assert(run(t, one) == run(step(t, Event::Activate), Seq::<Event>::empty()));
    assert(windows_constructed(t, one) == (if constructs_window(t, Event::Activate) {
        1nat
    } else {
        0nat
    }) + windows_constructed(step(t, Event::Activate), Seq::<Event>::empty()));
}

/// Whether `e` leaves the background flag and the window as they are.
pub open spec fn keeps_launch_intent(e: Event) -> bool {
    match e {
        Event::LocalOptions(_) => false,
        Event::Activate => false,
        _ => true,
    }
}

proof fn lemma_intent_kept(s: LifecycleModel, events: Seq<Event>)
    requires
        forall|i: int| 0 <= i < events.len() ==> keeps_launch_intent(#[trigger] events[i]),
    ensures
        run(s, events).background == s.background,
        run(s, events).window == s.window,
    decreases events.len(),
{
    if events.len() > 0 {
        let rest = events.drop_first();
        assert forall|i: int| 0 <= i < rest.len() implies keeps_launch_intent(
            #[trigger] rest[i],
        ) by {
            assert(rest[i] == events[i + 1]);
        }
        assert(keeps_launch_intent(events[0]));
        lemma_intent_kept(step(s, events[0]), rest);
    }
}

/// Background-flag precedence: when the most recent invocation asked for a
/// background start, the first activation after it constructs the window
/// without presenting it; otherwise it constructs and presents it.
pub proof fn lemma_background_precedence(
    s: LifecycleModel,
    background: bool,
    between: Seq<Event>,
)
    requires
        !s.window,
        forall|i: int| 0 <= i < between.len() ==> keeps_launch_intent(#[trigger] between[i]),
    ensures
        activation_of(run(after_local_options(s, background), between)) == (if background {
            Activation::CreateHidden
        } else {
            Activation::CreateAndPresent
        }),
{
    lemma_intent_kept(after_local_options(s, background), between);
}

/// Idempotent re-activation: activating with a window in place resurfaces it,
/// constructs nothing, and keeps the background flag and the window.
pub proof fn lemma_reactivation(s: LifecycleModel)
    requires
        s.window,
    ensures
        activation_of(s) == Activation::Resurface,
        !constructs_window(s, Event::Activate),
        after_activate(s).window,
        after_activate(s).background == s.background,
{
}

/// Quit ordering: with a window, quitting sets its quit intent before the close
/// request, and the close request before the request to quit the process.
pub proof fn lemma_quit_order(s: LifecycleModel)
    requires
        s.window,
    ensures
        commands_of(s, AppAction::Quit).len() == 3,
        commands_of(s, AppAction::Quit)[0] == Command::SetQuitIntent,
        commands_of(s, AppAction::Quit)[1] == Command::CloseWindow,
        commands_of(s, AppAction::Quit)[2] == Command::QuitApplication,
        after_invoke(s, AppAction::Quit).quit_intent,
{
}

/// Quit terminates regardless of a background start: Ctrl+Q is bound to the
/// application's quit action, whose requests do not depend on the background
/// flag, the last of which asks the process to quit, and the process moves to
/// shutting down.
pub proof fn lemma_quit_ignores_background(s: LifecycleModel)
    requires
        s.phase != Phase::Terminated,
    ensures
        accelerator_table()[0].0 == "app."@ + action_name(AppAction::Quit),
        accelerator_table()[0].1 == "<Control>q"@,
        commands_of(s, AppAction::Quit) == commands_of(
            after_local_options(s, true),
            AppAction::Quit,
        ),
        commands_of(s, AppAction::Quit) == commands_of(
            after_local_options(s, false),
            AppAction::Quit,
        ),
        commands_of(s, AppAction::Quit).last() == Command::QuitApplication,
        after_invoke(s, AppAction::Quit).phase == Phase::ShuttingDown,
{
    reveal_strlit("app.quit");
    reveal_strlit("app.");
    reveal_strlit("quit");
    assert(accelerator_table()[0].0 =~= "app."@ + action_name(AppAction::Quit));
}

proof fn lemma_registered_contains(actions: Seq<AppAction>, a: AppAction, b: AppAction)
    requires
        actions.contains(b),
    ensures
        registered(actions, a).contains(a),
        registered(actions, a).contains(b),
{
    let i = choose|i: int| 0 <= i < actions.len() && actions[i] == b;
    if !actions.contains(a) {
        assert(registered(actions, a)[i] == b);
        assert(registered(actions, a)[actions.len() as int] == a);
    }
}

/// A second startup registers no action again: it asks for the icon, the
/// stylesheet and the accelerators alone, and leaves the registered actions
/// as the first one left them.
pub proof fn lemma_startup_twice(s: LifecycleModel)
    ensures
        startup_steps(after_startup(s).actions) =~= seq![
            SetupStep::SetDefaultIcon,
            SetupStep::InstallStylesheet,
            SetupStep::RegisterAccelerators,
        ],
        after_startup(after_startup(s)).actions == after_startup(s).actions,
{
    let once = registered(s.actions, AppAction::Quit);
    if s.actions.contains(AppAction::Quit) {
        lemma_registered_contains(s.actions, AppAction::About, AppAction::Quit);
    } else {
        assert(once[s.actions.len() as int] == AppAction::Quit);
        lemma_registered_contains(once, AppAction::About, AppAction::Quit);
    }
    let twice = after_startup(s).actions;
    assert(twice.contains(AppAction::Quit));
    assert(twice.contains(AppAction::About));
}

} // verus!
