use campus_network_assistant::backend::config::Config;
use campus_network_assistant::backend::config::ISP;
use campus_network_assistant::backend::controller::AttemptOutcome;
use campus_network_assistant::backend::controller::AutoReauthController;
use campus_network_assistant::backend::controller::ControllerAction;
use campus_network_assistant::backend::controller::ControllerEvent;
use campus_network_assistant::backend::controller::ControllerState;
use campus_network_assistant::backend::controller::Directive;
use campus_network_assistant::backend::controller::FailureReason;
use campus_network_assistant::backend::controller::Notice;
use campus_network_assistant::backend::network_monitor::ConnectivityState;
use campus_network_assistant::backend::network_monitor::NetworkMonitor;
use campus_network_assistant::backend::network_monitor::Transition;
use campus_network_assistant::backend::policy::BackoffMultiplier;
use campus_network_assistant::backend::policy::RetryPolicy;

fn settings() -> Config {
    Config {
        username: "test_user".to_string(),
        password: "test_pass".to_string(),
        remember_password: true,
        auto_login: true,
        auth_url: "http://10.1.1.1".to_string(),
        isp: ISP::School,
    }
}

fn lost(timestamp: u64) -> Transition {
    Transition {
        from: ConnectivityState::Connected,
        to: ConnectivityState::Disconnected,
        timestamp,
    }
}

fn regained(timestamp: u64) -> Transition {
    Transition {
        from: ConnectivityState::Disconnected,
        to: ConnectivityState::Connected,
        timestamp,
    }
}

fn failed() -> AttemptOutcome {
    AttemptOutcome::Failure(FailureReason::Executor)
}

/// Lets a pending wait run out in the slices that the controller hands out,
/// with the host staying offline. Returns the time waited and the answer to
/// the last tick.
fn wait_out(controller: &mut AutoReauthController, first: ControllerAction) -> (u64, ControllerAction) {
    let mut waited = 0;
    let mut action = first;
    loop {
        match action.next {
            Directive::Wait { ms } => {
                assert!(ms > 0 && ms <= controller.policy().cancel_check_ms());
                waited += ms;
                action = controller.on_tick(ms, false);
            }
            _ => return (waited, action),
        }
    }
}

#[test]
fn scenario_four_failures_with_three_attempts_per_cycle() {
    let policy = RetryPolicy::new(3, 30_000, BackoffMultiplier::Linear, 120_000).unwrap();
    let mut controller = AutoReauthController::new(policy, settings());
    assert_eq!(controller.state(), ControllerState::Idle);
    assert_eq!(controller.attempt_count(), 0);

    let action = controller.on_transition(lost(1));
    assert_eq!(action.next, Directive::Login { attempt: 1 });
    assert_eq!(action.notice, Notice::CampaignStarted);
    assert_eq!(controller.state(), ControllerState::CampaignRunning);
    assert_eq!(controller.attempt_count(), 1);
    assert!(controller.is_in_progress());

    // Attempt 1 fails: the second attempt follows after twice the base.
    let action = controller.on_login_finished(failed());
    assert!(action.teardown);
    assert_eq!(action.notice, Notice::AttemptFailed);
    assert_eq!(controller.state(), ControllerState::CampaignRunning);
    assert_eq!(controller.attempt_count(), 2);
    let (first_wait, action) = wait_out(&mut controller, action);
    assert_eq!(first_wait, 60_000);
    assert_eq!(action.next, Directive::Login { attempt: 2 });
    assert_eq!(action.notice, Notice::Retrying);

    // Attempt 2 fails: the third attempt follows after a longer wait.
    let action = controller.on_login_finished(failed());
    assert_eq!(controller.attempt_count(), 3);
    let (second_wait, action) = wait_out(&mut controller, action);
    assert_eq!(second_wait, 90_000);
    assert!(second_wait >= first_wait);
    assert_eq!(action.next, Directive::Login { attempt: 3 });

    // Attempt 3 fails: the cycle has no attempts left.
    let action = controller.on_login_finished(failed());
    assert_eq!(action.notice, Notice::EnteredCooldown);
    assert_eq!(controller.state(), ControllerState::Cooldown);
    assert_eq!(controller.attempt_count(), 4);
    let (cooldown, action) = wait_out(&mut controller, action);
    assert_eq!(cooldown, 120_000);
    assert!(cooldown > second_wait);

    // The fourth login comes only after the cooldown, counted as attempt 1.
    assert_eq!(action.next, Directive::Login { attempt: 1 });
    assert_eq!(action.notice, Notice::CycleRestarted);
    assert_eq!(controller.state(), ControllerState::CampaignRunning);
    assert_eq!(controller.attempt_count(), 1);

    // It fails as well: the campaign goes on.
    let action = controller.on_login_finished(failed());
    assert_eq!(controller.attempt_count(), 2);
    assert!(matches!(action.next, Directive::Wait { .. }));
    assert_eq!(
        controller.campaign().last_outcome,
        Some(AttemptOutcome::Failure(FailureReason::Executor))
    );
}

#[test]
fn scenario_default_policy_waits_thirty_seconds_then_two_minutes() {
    let mut controller = AutoReauthController::new(RetryPolicy::default(), settings());
    controller.on_transition(lost(1));
    let action = controller.on_login_finished(failed());
    assert_eq!(wait_out(&mut controller, action).0, 30_000);
    let action = controller.on_login_finished(failed());
    assert_eq!(wait_out(&mut controller, action).0, 30_000);
    let action = controller.on_login_finished(failed());
    assert_eq!(controller.state(), ControllerState::Cooldown);
    assert_eq!(wait_out(&mut controller, action).0, 120_000);
}

#[test]
fn scenario_login_succeeds_on_second_attempt() {
    let mut controller = AutoReauthController::new(RetryPolicy::default(), settings());
    controller.on_transition(lost(1));
    let action = controller.on_login_finished(failed());
    let (_, action) = wait_out(&mut controller, action);
    assert_eq!(action.next, Directive::Login { attempt: 2 });

    let action = controller.on_login_finished(AttemptOutcome::Success);
    assert_eq!(
        action,
        ControllerAction { teardown: true, next: Directive::Listen, notice: Notice::AttemptSucceeded }
    );
    assert_eq!(controller.state(), ControllerState::Idle);
    assert_eq!(controller.attempt_count(), 0);
    assert!(!controller.is_in_progress());
    assert_eq!(controller.campaign().last_outcome, Some(AttemptOutcome::Success));

    // Nothing more is attempted until the next edge.
    for _ in 0..10 {
        let action = controller.on_tick(15_000, true);
        assert_eq!(action.next, Directive::Continue);
        let action = controller.on_tick(15_000, false);
        assert_eq!(action.next, Directive::Continue);
    }
    assert_eq!(controller.on_login_finished(failed()).next, Directive::Continue);
    assert_eq!(controller.state(), ControllerState::Idle);
    assert_eq!(controller.on_transition(lost(9)).next, Directive::Login { attempt: 1 });
}

#[test]
fn campaign_starts_only_on_the_edge_from_connected_to_disconnected() {
    let same = |state| Transition { from: state, to: state, timestamp: 3 };
    for transition in [
        regained(1),
        same(ConnectivityState::Connected),
        same(ConnectivityState::Disconnected),
    ] {
        let mut controller = AutoReauthController::new(RetryPolicy::default(), settings());
        let action = controller.on_transition(transition);
        assert_eq!(action.next, Directive::Continue);
        assert_eq!(controller.state(), ControllerState::Idle);
    }

    // From the probes on: verdicts true, true, false, false, true, false.
    let mut monitor = NetworkMonitor::new();
    let mut controller = AutoReauthController::new(RetryPolicy::default(), settings());
    let mut started = Vec::new();
    for (i, reachable) in [true, true, false, false, true, false].into_iter().enumerate() {
        if let Some(transition) = monitor.observe(reachable, i as u64) {
            let action = controller.on_transition(transition);
            if action.notice == Notice::CampaignStarted {
                started.push(i);
            }
        }
    }
    assert_eq!(started, vec![2, 5]);
}

#[test]
fn second_edge_during_a_campaign_changes_nothing() {
    let mut controller = AutoReauthController::new(RetryPolicy::default(), settings());
    controller.on_transition(lost(1));
    let before = controller.machine();
    let action = controller.on_transition(lost(2));
    assert_eq!(
        action,
        ControllerAction { teardown: false, next: Directive::Continue, notice: Notice::Nothing }
    );
    assert_eq!(controller.machine(), before);

    // During a backoff and during the cooldown as well.
    controller.on_login_finished(failed());
    let before = controller.machine();
    assert_eq!(controller.on_transition(lost(3)).next, Directive::Continue);
    assert_eq!(controller.machine(), before);
    for _ in 0..2 {
        let wait = controller.machine().wait_left_ms;
        controller.on_tick(wait, false);
        controller.on_login_finished(failed());
    }
    assert_eq!(controller.state(), ControllerState::Cooldown);
    let before = controller.machine();
    assert_eq!(controller.on_transition(lost(4)).next, Directive::Continue);
    assert_eq!(controller.machine(), before);
}

#[test]
fn reconnect_cancels_a_pending_wait_at_the_next_check() {
    let mut controller = AutoReauthController::new(RetryPolicy::default(), settings());
    controller.on_transition(lost(1));
    let action = controller.on_login_finished(failed());
    let Directive::Wait { ms } = action.next else { panic!("a wait was expected") };
    assert_eq!(ms, 500);
    let action = controller.on_tick(ms, false);
    assert_eq!(action.next, Directive::Wait { ms: 500 });
    assert_eq!(controller.machine().wait_left_ms, 29_500);

    // The host is back: idle at once, 29 seconds before the wait would end.
    let action = controller.on_tick(500, true);
    assert_eq!(
        action,
        ControllerAction { teardown: true, next: Directive::Listen, notice: Notice::Cancelled }
    );
    assert_eq!(controller.state(), ControllerState::Idle);
    assert_eq!(controller.attempt_count(), 0);
    assert_eq!(controller.machine().wait_left_ms, 0);
}

#[test]
fn reconnect_cancels_a_cooldown_and_a_running_attempt() {
    let mut controller = AutoReauthController::new(RetryPolicy::default(), settings());
    controller.on_transition(lost(1));
    let action = controller.on_transition(regained(2));
    assert!(action.teardown);
    assert_eq!(action.notice, Notice::Cancelled);
    assert_eq!(controller.state(), ControllerState::Idle);
    assert_eq!(controller.attempt_count(), 0);
    // The result of the abandoned attempt comes late and is ignored.
    assert_eq!(controller.on_login_finished(AttemptOutcome::Success).next, Directive::Continue);
    assert_eq!(controller.campaign().last_outcome, None);

    controller.on_transition(lost(3));
    for _ in 0..3 {
        controller.on_login_finished(failed());
        let wait = controller.machine().wait_left_ms;
        if controller.state() != ControllerState::Cooldown {
            controller.on_tick(wait, false);
        }
    }
    assert_eq!(controller.state(), ControllerState::Cooldown);
    controller.on_tick(1_000, true);
    assert_eq!(controller.state(), ControllerState::Idle);
    assert_eq!(controller.attempt_count(), 0);
}

#[test]
fn attempt_that_hangs_is_given_up_and_counts_as_a_failure() {
    let policy = RetryPolicy::default().with_attempt_ceiling(1_000).unwrap();
    let mut controller = AutoReauthController::new(policy, settings());
    controller.on_transition(lost(1));
    let action = controller.on_tick(400, false);
    assert_eq!(
        action,
        ControllerAction {
            teardown: false,
            next: Directive::Wait { ms: 500 },
            notice: Notice::Nothing
        }
    );
    assert_eq!(controller.machine().running_ms, 400);
    let action = controller.on_tick(600, false);
    assert!(action.teardown);
    assert_eq!(action.notice, Notice::AttemptFailed);
    assert_eq!(controller.attempt_count(), 2);
    assert_eq!(
        controller.campaign().last_outcome,
        Some(AttemptOutcome::Failure(FailureReason::Timeout))
    );
    assert!(!controller.machine().attempt_running);
}

#[test]
fn missing_credentials_abort_without_an_attempt() {
    let mut incomplete = settings();
    incomplete.password = String::new();
    let mut controller = AutoReauthController::new(RetryPolicy::default(), incomplete);
    let action = controller.on_transition(lost(1));
    assert_eq!(
        action,
        ControllerAction {
            teardown: false,
            next: Directive::Listen,
            notice: Notice::CredentialsMissing
        }
    );
    assert_eq!(controller.state(), ControllerState::Idle);
    assert_eq!(controller.attempt_count(), 0);
    assert_eq!(
        controller.campaign().last_outcome,
        Some(AttemptOutcome::Failure(FailureReason::Configuration))
    );

    // The executor turning the settings down ends the campaign the same way.
    let mut controller = AutoReauthController::new(RetryPolicy::default(), settings());
    controller.on_transition(lost(1));
    let action =
        controller.on_login_finished(AttemptOutcome::Failure(FailureReason::Configuration));
    assert_eq!(action.notice, Notice::ConfigurationRejected);
    assert!(action.teardown);
    assert_eq!(controller.state(), ControllerState::Idle);
    assert_eq!(controller.attempt_count(), 0);
}

#[test]
fn switched_off_auto_login_starts_nothing() {
    let mut off = settings();
    off.auto_login = false;
    let mut controller = AutoReauthController::new(RetryPolicy::default(), off);
    assert_eq!(controller.on_transition(lost(1)).next, Directive::Continue);
    assert_eq!(controller.state(), ControllerState::Idle);
}

#[test]
fn new_settings_wait_for_the_next_campaign() {
    let mut controller = AutoReauthController::new(RetryPolicy::default(), settings());
    controller.on_transition(lost(1));
    let mut changed = settings();
    changed.username = "someone_else".to_string();
    controller.update_settings(changed);
    assert_eq!(controller.credentials().username, "test_user");
    assert_eq!(controller.settings().username, "someone_else");
    controller.on_login_finished(AttemptOutcome::Success);
    controller.step(ControllerEvent::Transition(lost(2)));
    assert_eq!(controller.credentials().username, "someone_else");
}

#[test]
fn failure_reasons() {
    assert!(FailureReason::Executor.is_retryable());
    assert!(FailureReason::Resource.is_retryable());
    assert!(FailureReason::Timeout.is_retryable());
    assert!(!FailureReason::Configuration.is_retryable());
}

#[test]
fn counter_reads_zero_after_every_way_into_idle() {
    let ways: [fn(&mut AutoReauthController) -> ControllerAction; 6] = [
        |c| c.on_login_finished(AttemptOutcome::Success),
        |c| c.on_login_finished(AttemptOutcome::Failure(FailureReason::Configuration)),
        |c| c.on_transition(regained(5)),
        |c| c.on_tick(1, true),
        |c| {
            c.on_login_finished(failed());
            c.on_tick(1, true)
        },
        |c| {
            c.on_login_finished(failed());
            c.on_transition(regained(5))
        },
    ];
    for way in ways {
        let mut controller = AutoReauthController::new(RetryPolicy::default(), settings());
        controller.on_transition(lost(1));
        controller.on_login_finished(failed());
        let wait = controller.machine().wait_left_ms;
        controller.on_tick(wait, false);
        assert_eq!(controller.attempt_count(), 2);
        let action = way(&mut controller);
        assert!(action.teardown);
        assert_eq!(action.next, Directive::Listen);
        assert_eq!(controller.state(), ControllerState::Idle);
        assert_eq!(controller.attempt_count(), 0);
        assert!(!controller.is_in_progress());
        assert!(!controller.machine().attempt_running);
    }
}

#[test]
fn notices_have_their_lines() {
    assert_eq!(Notice::Nothing.message(), None);
    assert_eq!(
        Notice::CampaignStarted.message(),
        Some("Network disconnected, attempting auto login...")
    );
    assert_eq!(Notice::AttemptSucceeded.message(), Some("Auto login successful"));
    assert_eq!(
        Notice::CredentialsMissing.message(),
        Some("Auto login failed: Username or password is empty")
    );
    assert_ne!(Notice::AttemptFailed.message(), Notice::EnteredCooldown.message());
    assert!(Notice::Cancelled.message().is_some());
    assert!(Notice::Retrying.message().is_some());
    assert!(Notice::CycleRestarted.message().is_some());
    assert!(Notice::ConfigurationRejected.message().is_some());
}
