use campus_network_assistant::backend::config::Config;
use campus_network_assistant::backend::config::ISP;
use campus_network_assistant::backend::controller::AttemptOutcome;
use campus_network_assistant::backend::controller::ControllerEvent;
use campus_network_assistant::backend::controller::ControllerState;
use campus_network_assistant::backend::controller::Directive;
use campus_network_assistant::backend::controller::FailureReason;
use campus_network_assistant::backend::controller::Notice;
use campus_network_assistant::backend::network_monitor::ConnectivityState;
use campus_network_assistant::backend::network_monitor::Transition;
use campus_network_assistant::backend::policy::RetryPolicy;
use campus_network_assistant::backend::network_monitor::NetworkMonitor;
use campus_network_assistant::frontend::ui::clock_label;
use campus_network_assistant::frontend::ui::install_hint;
use campus_network_assistant::frontend::ui::StatusColor;
use campus_network_assistant::frontend::ui::MAX_LOG_LINES;
use campus_network_assistant::frontend::ui::UI;

fn is_stamped(line: &str, message: &str) -> bool {
    let bytes = line.as_bytes();
    line.len() == 11 + message.len()
        && bytes[0] == b'['
        && bytes[3] == b':'
        && bytes[6] == b':'
        && bytes[9] == b']'
        && bytes[10] == b' '
        && [1, 2, 4, 5, 7, 8].iter().all(|&i| bytes[i].is_ascii_digit())
        && &line[11..] == message
}

#[test]
fn test_ui_creation() {
    let network_monitor = NetworkMonitor::new();
    let ui = UI::new_empty(network_monitor);
    assert!(ui.log_messages.is_empty());
    assert_eq!(ui.config.auth_url, "http://10.1.1.1");
    assert!(matches!(ui.config.isp, ISP::School));
}

#[test]
fn test_ui_initialization() {
    let network_monitor = NetworkMonitor::new();
    let ui = UI::new_empty(network_monitor);
    assert!(ui.config.username.is_empty());
    assert!(ui.config.password.is_empty());
    assert!(!ui.config.remember_password);
    assert!(!ui.config.auto_login);
}

#[test]
fn test_add_log() {
    let network_monitor = NetworkMonitor::new();
    let mut ui = UI::new_empty(network_monitor);

    ui.add_log("Test message 1".to_string());
    assert_eq!(ui.log_messages.len(), 1);
    assert!(ui.log_messages[0].contains("Test message 1"));

    for i in 0..110 {
        ui.add_log(format!("Test message {}", i));
    }
    assert_eq!(ui.log_messages.len(), 100);
}

#[test]
fn test_network_status_display() {
    let network_monitor = NetworkMonitor::new();
    let mut ui = UI::new_empty(network_monitor);

    let (status_text, status_color) = ui.get_network_status();
    assert_eq!(status_text, "Disconnected");
    assert_eq!(status_color, StatusColor::Red);

    ui.network_monitor.set_connected(true);
    let (status_text, status_color) = ui.get_network_status();
    assert_eq!(status_text, "Connected");
    assert_eq!(status_color, StatusColor::Green);

    ui.network_monitor.set_connected(false);
    let (status_text, status_color) = ui.get_network_status();
    assert_eq!(status_text, "Disconnected");
    assert_eq!(status_color, StatusColor::Red);
}

#[test]
fn test_config_initialization() {
    let network_monitor = NetworkMonitor::new();
    let ui = UI::new_empty(network_monitor);

    assert_eq!(ui.config.username, "");
    assert_eq!(ui.config.password, "");
    assert!(!ui.config.remember_password);
    assert!(!ui.config.auto_login);
    assert_eq!(ui.config.auth_url, "http://10.1.1.1");
    assert!(matches!(ui.config.isp, ISP::School));
}

#[test]
fn log_lines_are_stamped_and_the_oldest_leaves() {
    let mut ui = UI::new_empty(NetworkMonitor::new());
    ui.add_log("hello".to_string());
    assert!(is_stamped(&ui.log_messages[0], "hello"), "{}", ui.log_messages[0]);

    let mut ui = UI::new_empty(NetworkMonitor::new());
    for i in 0..MAX_LOG_LINES {
        ui.push_log("00:00:00", &format!("line {}", i));
    }
    assert_eq!(ui.log_len(), 100);
    assert_eq!(ui.log_messages[0], "[00:00:00] line 0");
    ui.push_log("12:34:56", "one more");
    assert_eq!(ui.log_len(), 100);
    assert_eq!(ui.log_messages[0], "[00:00:00] line 1");
    assert_eq!(ui.log_messages[99], "[12:34:56] one more");
}

#[test]
fn clock_labels() {
    assert_eq!(clock_label(0, 0, 0), "00:00:00");
    assert_eq!(clock_label(9, 5, 7), "09:05:07");
    assert_eq!(clock_label(23, 59, 59), "23:59:59");
    assert_eq!(clock_label(123, 100, 60), "23:00:60");
}

#[test]
fn status_change_is_logged_once() {
    let mut ui = UI::new_empty(NetworkMonitor::new());
    assert!(!ui.update_network_status());
    assert_eq!(ui.log_len(), 0);
    assert_eq!(ui.last_network_status, None);
    ui.network_monitor.set_connected(true);
    assert!(ui.update_network_status());
    assert_eq!(ui.log_len(), 0);
    assert_eq!(ui.last_network_status, Some(true));
    assert!(ui.update_network_status());
    assert_eq!(ui.log_len(), 0);
    ui.network_monitor.set_connected(false);
    assert!(!ui.update_network_status());
    assert_eq!(ui.log_len(), 1);
    assert!(is_stamped(&ui.log_messages[0], "Network status changed to: Disconnected"));
    assert!(!ui.update_network_status());
    assert_eq!(ui.log_len(), 1);
    ui.network_monitor.set_connected(true);
    assert!(ui.update_network_status());
    assert_eq!(ui.log_len(), 2);
    assert!(is_stamped(&ui.log_messages[1], "Network status changed to: Connected"));
    assert_eq!(ui.last_network_status, Some(true));
}

#[test]
fn first_verdict_is_taken_in_silence() {
    let mut ui = UI::new_empty(NetworkMonitor::new());
    ui.network_monitor.set_connected(false);
    assert!(!ui.update_network_status());
    assert_eq!(ui.log_len(), 0);
    assert_eq!(ui.last_network_status, Some(false));
    ui.network_monitor.set_connected(true);
    assert!(ui.update_network_status());
    assert!(is_stamped(&ui.log_messages[0], "Network status changed to: Connected"));
}

#[test]
fn auto_login_needs_credentials() {
    let mut ui = UI::new_empty(NetworkMonitor::new());
    assert!(!ui.start_auto_login());
    assert!(is_stamped(
        &ui.log_messages[0],
        "Auto login failed: Username or password is empty"
    ));
    assert!(ui.auto_login().is_none());

    ui.config.username = "test_user".to_string();
    ui.config.password = "test_pass".to_string();
    assert!(ui.start_auto_login());
    assert!(is_stamped(&ui.log_messages[1], "Auto login thread started"));
    let controller = ui.auto_login().unwrap();
    assert_eq!(controller.state(), ControllerState::Idle);
    assert_eq!(controller.attempt_count(), 0);
    assert_eq!(controller.credentials().username, "test_user");
    assert_eq!(controller.credentials().password, "test_pass");
    assert_eq!(controller.settings().username, "test_user");
    assert_eq!(controller.settings().auth_url, "http://10.1.1.1");
    let policy = controller.policy();
    let standard = RetryPolicy::default();
    assert_eq!(policy.max_attempts_before_cooldown(), standard.max_attempts_before_cooldown());
    assert_eq!(policy.base_backoff_ms(), 30_000);
    assert_eq!(policy.multiplier(), standard.multiplier());
    assert_eq!(policy.cooldown_backoff_ms(), 120_000);
    assert!(!ui.stop_auto_login());
    assert!(ui.auto_login().is_none());
}

fn ready_settings() -> Config {
    Config {
        username: "u".to_string(),
        password: "p".to_string(),
        remember_password: true,
        auto_login: true,
        auth_url: "http://10.1.1.1".to_string(),
        isp: ISP::Mobile,
    }
}

fn lost(timestamp: u64) -> ControllerEvent {
    ControllerEvent::Transition(Transition {
        from: ConnectivityState::Connected,
        to: ConnectivityState::Disconnected,
        timestamp,
    })
}

#[test]
fn starting_again_keeps_the_campaign_under_way() {
    let mut ui = UI::new(NetworkMonitor::new(), ready_settings(), true);
    let action = ui.step_auto_login(lost(1)).unwrap();
    assert_eq!(action.next, Directive::Login { attempt: 1 });
    assert_eq!(action.notice, Notice::CampaignStarted);
    let failed = ControllerEvent::LoginFinished(AttemptOutcome::Failure(FailureReason::Executor));
    let action = ui.step_auto_login(failed).unwrap();
    assert!(matches!(action.next, Directive::Wait { .. }));
    assert!(action.teardown);
    assert_eq!(ui.auto_login().unwrap().attempt_count(), 2);

    ui.config.username = "other".to_string();
    assert!(ui.start_auto_login());
    assert_eq!(ui.log_len(), 2);
    assert!(is_stamped(&ui.log_messages[1], "Auto login already running"));
    let controller = ui.auto_login().unwrap();
    assert_eq!(controller.state(), ControllerState::CampaignRunning);
    assert_eq!(controller.attempt_count(), 2);
    assert!(controller.is_in_progress());
    assert_eq!(controller.credentials().username, "u");
    assert_eq!(controller.settings().username, "other");

    let action = ui.step_auto_login(lost(2)).unwrap();
    assert_eq!(action.notice, Notice::Nothing);
    assert_eq!(ui.auto_login().unwrap().attempt_count(), 2);

    ui.config.password = String::new();
    assert!(!ui.start_auto_login());
    assert_eq!(ui.auto_login().unwrap().attempt_count(), 2);
    assert_eq!(ui.auto_login().unwrap().settings().username, "other");
    assert_eq!(ui.auto_login().unwrap().settings().password, "p");
}

#[test]
fn stopping_during_an_attempt_asks_for_teardown() {
    let mut ui = UI::new(NetworkMonitor::new(), ready_settings(), true);
    let _ = ui.step_auto_login(lost(1)).unwrap();
    assert!(ui.stop_auto_login());
    assert!(ui.auto_login().is_none());
    assert_eq!(ui.step_auto_login(lost(2)), None);
    assert!(!ui.stop_auto_login());

    let mut ui = UI::new(NetworkMonitor::new(), ready_settings(), true);
    let _ = ui.step_auto_login(lost(1)).unwrap();
    let failed = ControllerEvent::LoginFinished(AttemptOutcome::Failure(FailureReason::Executor));
    let _ = ui.step_auto_login(failed).unwrap();
    assert!(!ui.stop_auto_login());
}

#[test]
fn events_without_a_controller_change_nothing() {
    let mut ui = UI::new_empty(NetworkMonitor::new());
    assert_eq!(ui.step_auto_login(lost(1)), None);
    assert_eq!(ui.log_len(), 0);
    assert!(ui.auto_login().is_none());
}

#[test]
fn start_up_starts_auto_login_when_the_settings_ask_for_it() {
    let ui = UI::new(NetworkMonitor::new(), ready_settings(), true);
    assert!(ui.chrome_installed());
    assert_eq!(ui.log_len(), 1);
    assert!(is_stamped(&ui.log_messages[0], "Auto login thread started"));
    let controller = ui.auto_login().unwrap();
    assert_eq!(controller.state(), ControllerState::Idle);
    assert_eq!(controller.credentials().username, "u");
    assert_eq!(controller.credentials().password, "p");
    assert_eq!(controller.settings().isp, ISP::Mobile);
    assert_eq!(controller.policy().max_attempts_before_cooldown(), 3);
    assert_eq!(ui.last_network_status, None);

    let ui = UI::new(NetworkMonitor::new(), Config::fallback(), false);
    assert_eq!(ui.log_len(), 0);
    assert!(ui.auto_login().is_none());
    assert!(!ui.chrome_installed());
}

#[test]
fn saving_is_logged() {
    let mut ui = UI::new_empty(NetworkMonitor::new());
    ui.save_config(None);
    ui.save_config(Some("disk full"));
    assert!(is_stamped(&ui.log_messages[0], "Configuration saved successfully"));
    assert!(is_stamped(&ui.log_messages[1], "Failed to save config: disk full"));
}

#[test]
fn browser_counts_as_installed_when_both_parts_are_there() {
    let mut ui = UI::new_empty(NetworkMonitor::new());
    assert!(!ui.check_chrome_installed(true, false));
    assert!(!ui.check_chrome_installed(false, true));
    assert!(ui.check_chrome_installed(true, true));
    assert!(ui.chrome_installed());
}

#[test]
fn hints_for_failed_installations() {
    assert_eq!(
        install_hint("error sending request: tcp connect error: refused"),
        Some("Network error: Please check your internet connection")
    );
    assert_eq!(
        install_hint("permission denied (os error 13)"),
        Some("Permission error: Please run the program with administrator privileges")
    );
    assert_eq!(
        install_hint("permission denied after tcp connect error"),
        Some("Network error: Please check your internet connection")
    );
    assert_eq!(install_hint("something else"), None);
}

#[test]
fn edited_settings_reach_the_controller() {
    let mut ui = UI::new(NetworkMonitor::new(), ready_settings(), true);
    let _ = ui.step_auto_login(lost(1)).unwrap();
    let mut edited = ready_settings();
    edited.username = "v".to_string();
    edited.isp = ISP::Telecom;
    ui.set_config(edited);
    assert_eq!(ui.config.username, "v");
    let controller = ui.auto_login().unwrap();
    assert_eq!(controller.settings().username, "v");
    assert_eq!(controller.settings().isp, ISP::Telecom);
    assert_eq!(controller.credentials().username, "u");
    assert_eq!(controller.attempt_count(), 1);

    let mut ui = UI::new_empty(NetworkMonitor::new());
    ui.set_config(ready_settings());
    assert_eq!(ui.config.password, "p");
    assert!(ui.auto_login().is_none());
    assert_eq!(ui.log_len(), 0);
}
