use packet::action::{ActionRouter, AppAction};
use packet::bootstrap::{accelerators, background_option};
use packet::lifecycle::{Activation, Command, Lifecycle, Phase, SetupStep};

fn started() -> Lifecycle {
    let mut app = Lifecycle::new();
    app.startup();
    app
}

#[test]
fn fresh_controller_has_no_window() {
    let app = Lifecycle::new();
    assert_eq!(app.phase(), Phase::Created);
    assert!(!app.has_window());
    assert!(!app.start_in_background());
    assert!(!app.quit_intent());
    assert_eq!(app.registrations(AppAction::Quit), 0);
    assert_eq!(app.registrations(AppAction::About), 0);
}

#[test]
fn startup_sets_up_in_order_without_a_window() {
    let mut app = Lifecycle::new();
    let steps = app.startup();
    assert_eq!(
        steps,
        vec![
            SetupStep::SetDefaultIcon,
            SetupStep::InstallStylesheet,
            SetupStep::RegisterAction(AppAction::Quit),
            SetupStep::RegisterAction(AppAction::About),
            SetupStep::RegisterAccelerators,
        ]
    );
    assert_eq!(app.phase(), Phase::Started);
    assert!(!app.has_window());
}

#[test]
fn no_flags_activate_constructs_and_presents() {
    let mut app = started();
    app.handle_local_options(false);
    assert_eq!(app.activate(), Activation::CreateAndPresent);
    assert!(app.has_window());
    assert_eq!(app.phase(), Phase::Activated);
}

#[test]
fn background_activate_constructs_hidden_then_show_presents_same_window() {
    let mut app = started();
    app.handle_local_options(true);
    assert_eq!(app.activate(), Activation::CreateHidden);
    assert!(app.has_window());
    assert_eq!(app.activate(), Activation::Resurface);
    assert!(app.has_window());
}

#[test]
fn startup_twice_registers_each_action_once() {
    let mut app = Lifecycle::new();
    app.startup();
    let second = app.startup();
    assert_eq!(
        second,
        vec![
            SetupStep::SetDefaultIcon,
            SetupStep::InstallStylesheet,
            SetupStep::RegisterAccelerators,
        ]
    );
    assert_eq!(app.registrations(AppAction::Quit), 1);
    assert_eq!(app.registrations(AppAction::About), 1);
    assert_eq!(app.phase(), Phase::Started);
}

#[test]
fn quit_sets_intent_then_closes_then_quits() {
    let mut app = started();
    app.handle_local_options(false);
    app.activate();
    let commands = app.invoke(AppAction::Quit);
    assert_eq!(
        commands,
        vec![Command::SetQuitIntent, Command::CloseWindow, Command::QuitApplication]
    );
    assert!(app.quit_intent());
    assert_eq!(app.phase(), Phase::ShuttingDown);
}

#[test]
fn many_activations_construct_one_window() {
    let mut app = started();
    app.handle_local_options(false);
    let mut constructed = 0;
    for _ in 0..10 {
        if app.activate() != Activation::Resurface {
            constructed += 1;
        }
    }
    assert_eq!(constructed, 1);
}

#[test]
fn later_invocation_flag_does_not_reconstruct() {
    let mut app = started();
    app.handle_local_options(false);
    assert_eq!(app.activate(), Activation::CreateAndPresent);
    app.handle_local_options(true);
    assert_eq!(app.activate(), Activation::Resurface);
    assert!(app.start_in_background());
}

#[test]
fn most_recent_options_win() {
    let mut app = started();
    app.handle_local_options(true);
    app.handle_local_options(false);
    assert_eq!(app.activate(), Activation::CreateAndPresent);
}

#[test]
fn reactivation_keeps_background_flag() {
    let mut app = started();
    app.handle_local_options(true);
    app.activate();
    app.activate();
    assert!(app.start_in_background());
    assert!(app.has_window());
}

#[test]
fn quit_in_background_mode_still_terminates() {
    let mut app = started();
    app.handle_local_options(true);
    assert_eq!(app.activate(), Activation::CreateHidden);
    let commands = app.invoke(AppAction::Quit);
    assert_eq!(commands.last(), Some(&Command::QuitApplication));
    assert_eq!(
        commands,
        vec![Command::SetQuitIntent, Command::CloseWindow, Command::QuitApplication]
    );
    assert_eq!(app.phase(), Phase::ShuttingDown);
}

#[test]
fn quit_without_window_only_quits() {
    let mut app = started();
    assert_eq!(app.invoke(AppAction::Quit), vec![Command::QuitApplication]);
    assert!(!app.quit_intent());
}

#[test]
fn about_shows_dialog_without_change() {
    let mut app = started();
    app.activate();
    assert_eq!(app.invoke(AppAction::About), vec![Command::ShowAbout]);
    assert_eq!(app.phase(), Phase::Activated);
    assert!(!app.quit_intent());
}

#[test]
fn invoke_by_name_routes_and_ignores_unknown() {
    let mut app = started();
    app.activate();
    assert_eq!(app.invoke_by_name("about"), vec![Command::ShowAbout]);
    assert_eq!(app.invoke_by_name("help"), Vec::<Command>::new());
    assert_eq!(app.phase(), Phase::Activated);
    assert_eq!(
        app.invoke_by_name("quit"),
        vec![Command::SetQuitIntent, Command::CloseWindow, Command::QuitApplication]
    );
}

#[test]
fn shutdown_terminates() {
    let mut app = started();
    app.activate();
    app.invoke(AppAction::Quit);
    app.shutdown();
    assert_eq!(app.phase(), Phase::Terminated);
}

#[test]
fn action_names_round_trip() {
    assert_eq!(AppAction::Quit.name(), "quit");
    assert_eq!(AppAction::About.name(), "about");
    assert_eq!(AppAction::from_name("quit"), Some(AppAction::Quit));
    assert_eq!(AppAction::from_name("about"), Some(AppAction::About));
    assert_eq!(AppAction::from_name("Quit"), None);
    assert_eq!(AppAction::from_name(""), None);
}

#[test]
fn router_registers_once() {
    let mut router = ActionRouter::new();
    assert_eq!(router.len(), 0);
    assert!(router.register(AppAction::Quit));
    assert!(!router.register(AppAction::Quit));
    assert!(router.contains(AppAction::Quit));
    assert!(!router.contains(AppAction::About));
    assert_eq!(router.count_of(AppAction::Quit), 1);
    assert_eq!(router.len(), 1);
}

#[test]
fn accelerator_table_is_fixed() {
    assert_eq!(
        accelerators(),
        vec![
            ("app.quit", "<Control>q"),
            ("window.close", "<Control>w"),
            ("win.preferences", "<Control>comma"),
            ("win.help", "F1"),
        ]
    );
}

#[test]
fn background_option_declaration() {
    let option = background_option();
    assert_eq!(option.long_name, "background");
    assert_eq!(option.short_name, 'b');
    assert!(!option.takes_value);
    assert_eq!(option.description, "Start the application in background");
}
