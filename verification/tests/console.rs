use vortex_ais::console::{App, LaunchMessage, LOG_CAPACITY};

#[test]
fn new_app_greets() {
    let app = App::default();
    assert_eq!(app.log_lines().len(), 6);
    assert_eq!(app.log_lines()[0], "Bootstrapper Loaded.");
    assert_eq!(app.log_lines()[4], "discord.gg/E9y6WfEdPW");
    assert_eq!(app.status_text(), "");
    assert!(app.check_updates_on_launch());
    assert!(!app.launched());
    assert!(app.controls_enabled());
    assert_eq!(app.update_hint(), "");
}

#[test]
fn console_keeps_last_sixty_four_lines() {
    let mut app = App::default();
    for i in 0..100 {
        app.push_log(format!("line {i}"));
        assert!(app.log_lines().len() <= LOG_CAPACITY);
    }
    assert_eq!(app.log_lines().len(), 64);
    assert_eq!(app.log_lines()[0], "line 36");
    assert_eq!(app.log_lines()[63], "line 99");
}

#[test]
fn clear_empties_console() {
    let mut app = App::default();
    app.clear_logs();
    assert!(app.log_lines().is_empty());
}

#[test]
fn update_check_button() {
    let mut app = App::default();
    app.set_check_updates_on_launch(false);
    assert_eq!(app.update_hint(), "Update checking is disabled.");
    app.start_update_check();
    assert!(app.check_updates_on_launch());
    assert_eq!(app.status_text(), "Checking for updates...");
    assert_eq!(app.log_lines().last().unwrap(), "Update check started.");
}

#[test]
fn mods_folder_outcomes_are_logged() {
    let mut app = App::default();
    app.mods_folder_opened(Ok(()));
    assert_eq!(app.log_lines().last().unwrap(), "Opened mods folder");
    app.mods_folder_opened(Err("no explorer".to_string()));
    assert_eq!(app.log_lines().last().unwrap(), "Error while opening mods folder: no explorer");
}

#[test]
fn launch_button_only_once() {
    let mut app = App::default();
    assert_eq!(app.start_launch(), Some(true));
    assert!(app.launched());
    assert!(app.launch_pending());
    assert_eq!(app.status_text(), "Vortex Active");
    assert!(!app.controls_enabled());
    assert_eq!(app.start_launch(), None);
}

#[test]
fn launch_success_and_exit() {
    let mut app = App::default();
    app.set_close_launcher(true);
    app.start_launch();
    assert!(!app.on_launch_message(LaunchMessage::Log("Fetching for updates...".to_string())));
    assert!(app.on_launch_message(LaunchMessage::Done(Ok(()))));
    assert!(app.vortex_running());
    assert!(!app.launch_pending());
    assert_eq!(app.log_lines().last().unwrap(), "Vortex launched.");
    app.vortex_exited("exit status: 0");
    assert!(!app.launched());
    assert!(!app.vortex_running());
    assert_eq!(app.status_text(), "Vortex AIS is ready for launch");
    assert_eq!(app.log_lines().last().unwrap(), "Vortex closed: exit status: 0");
}

#[test]
fn launch_failure_is_reported() {
    let mut app = App::default();
    app.start_launch();
    assert!(!app.on_launch_message(LaunchMessage::Done(Err("boom".to_string()))));
    assert_eq!(app.status_text(), "Launch failed: boom");
    let n = app.log_lines().len();
    assert_eq!(app.log_lines()[n - 2], "Launch error: boom");
    assert_eq!(app.log_lines()[n - 1], "If you're unsure of the cause, feel free to contact us in our discord.");
    assert!(!app.launched());
    assert!(app.controls_enabled());
}

#[test]
fn process_check_failure_stops_watching() {
    let mut app = App::default();
    app.start_launch();
    app.on_launch_message(LaunchMessage::Done(Ok(())));
    app.vortex_check_failed("gone");
    assert!(!app.vortex_running());
    assert!(!app.launched());
    assert_eq!(app.log_lines().last().unwrap(), "Process check failed: gone");
}
