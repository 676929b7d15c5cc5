//! The automatic re-authentication controller.
//!
//! The controller is a state machine. It is told what happens (the monitor
//! published a transition, time went by, the login executor returned) and
//! answers with what to do next (start a login, wait, tear the executor's
//! session down). It never sleeps and never calls the executor itself: the
//! caller runs the loop, so that a wait can be cut short the moment the host is
//! back online.
//!
//! One campaign runs at a time. A campaign starts on the edge from connected
//! to disconnected, makes up to the policy's number of attempts with a growing
//! wait between them, rests for the cooldown, and starts over at the first
//! attempt, until a login succeeds or the host is seen connected again.

use vstd::prelude::*;
use crate::backend::config::Config;
use crate::backend::config::ConfigView;
use crate::backend::network_monitor::ConnectivityState;
use crate::backend::network_monitor::MonitorView;
use crate::backend::network_monitor::Transition;
use crate::backend::policy::law_backoff_monotonic;
use crate::backend::policy::PolicyView;
use crate::backend::policy::RetryPolicy;

verus! {

/// Milliseconds between two looks at the monitor's snapshot while nothing is
/// going on.
pub const IDLE_POLL_MS: u64 = 15_000;

/// Where the controller stands.
#[derive(Clone, Copy, Debug, PartialEq, Eq, Structural)]
pub enum ControllerState {
    /// No campaign; waiting for the host to lose its connection.
    Idle,
    /// A campaign is making its attempts.
    CampaignRunning,
    /// A campaign has used up its attempts and rests before it starts over.
    Cooldown,
}

/// Why a login attempt did not bring the host online.
#[derive(Clone, Copy, Debug, PartialEq, Eq, Structural)]
pub enum FailureReason {
    /// The attempt ran and failed: wrong credentials, portal out of reach, a
    /// fault in the automation.
    Executor,
    /// The executor's session could not be set up or torn down.
    Resource,
    /// The attempt took longer than the policy's ceiling and was given up.
    Timeout,
    /// The settings cannot work: credentials missing, portal address unusable.
    Configuration,
}

impl FailureReason {
    /// Every failure is worth another attempt, except one of the settings.
    pub open spec fn retryable(self) -> bool {
        self != FailureReason::Configuration
    }

    /// True when another attempt may succeed where this one failed.
    pub fn is_retryable(&self) -> (retryable: bool)
        ensures
            retryable == self.retryable(),
    {
        match self {
            FailureReason::Configuration => false,
            _ => true,
        }
    }
}

/// How a login attempt ended.
#[derive(Clone, Copy, Debug, PartialEq, Eq, Structural)]
pub enum AttemptOutcome {
    Success,
    Failure(FailureReason),
}

/// The controller's record of its campaign.
#[derive(Clone, Copy, Debug, PartialEq, Eq, Structural)]
pub struct ReauthCampaign {
    /// Number of the attempt that is running or comes next; zero when no
    /// campaign is in progress.
    pub attempt_count: u32,
    pub in_progress: bool,
    /// How the last finished attempt ended, if there was one.
    pub last_outcome: Option<AttemptOutcome>,
}

/// What the controller is told.
#[derive(Clone, Copy, Debug, PartialEq, Eq, Structural)]
pub enum ControllerEvent {
    /// The monitor published a change of the connectivity state.
    Transition(Transition),
    /// `elapsed_ms` milliseconds went by since the controller last answered,
    /// and the monitor's snapshot now reads `connected`.
    Tick { elapsed_ms: u64, connected: bool },
    /// The login executor returned.
    LoginFinished(AttemptOutcome),
}

/// What the caller does next.
#[derive(Clone, Copy, Debug, PartialEq, Eq, Structural)]
pub enum Directive {
    /// Nothing has changed: go on with whatever was under way.
    Continue,
    /// No campaign is in progress: wait for the monitor's next transition.
    Listen,
    /// Hand the campaign's credentials to the login executor, now. While it
    /// runs, report a tick every cancellation-check interval.
    Login { attempt: u32 },
    /// Let at most `ms` milliseconds go by, then report a tick.
    Wait { ms: u64 },
}

/// What the controller has to say about a step, for the log.
#[derive(Clone, Copy, Debug, PartialEq, Eq, Structural)]
pub enum Notice {
    Nothing,
    /// The host went offline and the first attempt starts.
    CampaignStarted,
    /// The host went offline, but the credentials are not filled in.
    CredentialsMissing,
    /// The host is online again.
    AttemptSucceeded,
    /// An attempt failed; the next one follows after a wait.
    AttemptFailed,
    /// An attempt failed and the cycle has no attempts left; the campaign
    /// rests before it starts over.
    EnteredCooldown,
    /// The executor says the settings cannot work; the campaign is dropped.
    ConfigurationRejected,
    /// The wait is over and the next attempt of the cycle starts.
    Retrying,
    /// The rest is over and a new cycle starts at its first attempt.
    CycleRestarted,
    /// The host was seen online while the campaign was under way; the campaign
    /// is dropped.
    Cancelled,
}

impl Notice {
    /// The line that goes into the log for this notice, if one does.
    pub open spec fn text(self) -> Option<Seq<char>> {
        match self {
            Notice::Nothing => None,
            Notice::CampaignStarted => Some("Network disconnected, attempting auto login..."@),
            Notice::CredentialsMissing => Some(
                "Auto login failed: Username or password is empty"@,
            ),
            Notice::AttemptSucceeded => Some("Auto login successful"@),
            Notice::AttemptFailed => Some("Auto login failed, trying again after a wait"@),
            Notice::EnteredCooldown => Some(
                "Auto login failed repeatedly, resting before the next round of attempts"@,
            ),
            Notice::ConfigurationRejected => Some(
                "Auto login failed: the settings cannot work"@,
            ),
            Notice::Retrying => Some("Auto login: next attempt"@),
            Notice::CycleRestarted => Some("Auto login: rest is over, starting over"@),
            Notice::Cancelled => Some("Network is back, auto login cancelled"@),
        }
    }

    /// The line that goes into the log for this notice, if one does.
    pub fn message(&self) -> (line: Option<&'static str>)
        ensures
            match line {
                Some(text) => self.text() == Some(text@),
                None => self.text() is None,
            },
    {
        match self {
            Notice::Nothing => None,
            Notice::CampaignStarted => Some("Network disconnected, attempting auto login..."),
            Notice::CredentialsMissing => Some("Auto login failed: Username or password is empty"),
            Notice::AttemptSucceeded => Some("Auto login successful"),
            Notice::AttemptFailed => Some("Auto login failed, trying again after a wait"),
            Notice::EnteredCooldown => Some(
                "Auto login failed repeatedly, resting before the next round of attempts",
            ),
            Notice::ConfigurationRejected => Some("Auto login failed: the settings cannot work"),
            Notice::Retrying => Some("Auto login: next attempt"),
            Notice::CycleRestarted => Some("Auto login: rest is over, starting over"),
            Notice::Cancelled => Some("Network is back, auto login cancelled"),
        }
    }
}

/// The controller's answer to an event.
#[derive(Clone, Copy, Debug, PartialEq, Eq, Structural)]
pub struct ControllerAction {
    /// Tear the executor's session down before anything else.
    pub teardown: bool,
    pub next: Directive,
    pub notice: Notice,
}

/// The part of the controller that an event can change.
#[derive(Clone, Copy, Debug, PartialEq, Eq, Structural)]
pub struct Machine {
    pub state: ControllerState,
    pub campaign: ReauthCampaign,
    /// A login attempt is with the executor.
    pub attempt_running: bool,
    /// How long the running attempt has taken so far.
    pub running_ms: u64,
    /// What is left of the pending wait.
    pub wait_left_ms: u64,
}

/// A machine after a step, with the answer given for it.
pub struct Step {
    pub machine: Machine,
    pub action: ControllerAction,
}

/// The shorter of a wait and the policy's cancellation-check interval.
pub open spec fn slice_of(policy: PolicyView, wait_ms: u64) -> u64 {
    if wait_ms <= policy.cancel_check_ms {
        wait_ms
    } else {
        policy.cancel_check_ms as u64
    }
}

impl Machine {
    /// The machine of a controller that has nothing to do.
    pub open spec fn idle() -> Machine {
        Machine {
            state: ControllerState::Idle,
            campaign: ReauthCampaign { attempt_count: 0, in_progress: false, last_outcome: None },
            attempt_running: false,
            running_ms: 0,
            wait_left_ms: 0,
        }
    }

    /// What holds of the machine of every controller run on `policy`.
    pub open spec fn wf(self, policy: PolicyView) -> bool {
        &&& policy.valid()
        &&& self.campaign.in_progress == (self.state != ControllerState::Idle)
        &&& self.attempt_running ==> self.running_ms < policy.attempt_ceiling_ms
        &&& !self.attempt_running ==> self.running_ms == 0
        &&& match self.state {
            ControllerState::Idle => {
                &&& self.campaign.attempt_count == 0
                &&& !self.attempt_running
                &&& self.wait_left_ms == 0
            },
            ControllerState::CampaignRunning => {
                &&& 1 <= self.campaign.attempt_count <= policy.max_attempts
                &&& self.attempt_running == (self.wait_left_ms == 0)
                &&& self.wait_left_ms <= policy.backoff_at(self.campaign.attempt_count as nat)
            },
            ControllerState::Cooldown => {
                &&& self.campaign.attempt_count == policy.max_attempts + 1
                &&& !self.attempt_running
                &&& 0 < self.wait_left_ms <= policy.cooldown_ms
            },
        }
    }

    /// A wait is pending: the campaign is between two attempts.
    pub open spec fn waiting(self) -> bool {
        self.campaign.in_progress && !self.attempt_running
    }

    /// Back to idle with the counter reset, remembering `outcome` as the way
    /// the last attempt ended.
    pub open spec fn reset(self, outcome: Option<AttemptOutcome>) -> Machine {
        Machine {
            campaign: ReauthCampaign { last_outcome: outcome, ..Machine::idle().campaign },
            ..Machine::idle()
        }
    }

    /// Attempt number `attempt` is handed to the executor.
    pub open spec fn attempting(self, attempt: u32) -> Machine {
        Machine {
            state: ControllerState::CampaignRunning,
            campaign: ReauthCampaign {
                attempt_count: attempt,
                in_progress: true,
                last_outcome: self.campaign.last_outcome,
            },
            attempt_running: true,
            running_ms: 0,
            wait_left_ms: 0,
        }
    }

    /// The campaign is dropped because the host is online again.
    pub open spec fn cancel(self) -> Step {
        Step {
            machine: self.reset(self.campaign.last_outcome),
            action: ControllerAction {
                teardown: true,
                next: Directive::Listen,
                notice: Notice::Cancelled,
            },
        }
    }

    /// Nothing changes.
    pub open spec fn ignore(self) -> Step {
        Step {
            machine: self,
            action: ControllerAction {
                teardown: false,
                next: Directive::Continue,
                notice: Notice::Nothing,
            },
        }
    }

    /// The running attempt failed for a reason that is worth another attempt.
    /// The counter goes up by one. While it stays within the policy's limit
    /// the campaign waits the backoff for the new count; beyond it the
    /// campaign rests for the cooldown.
    pub open spec fn fail(self, policy: PolicyView, reason: FailureReason) -> Step {
        let count = (self.campaign.attempt_count + 1) as u32;
        let wait = policy.wait_after(count as nat);
        Step {
            machine: Machine {
                state: if wait.cooldown {
                    ControllerState::Cooldown
                } else {
                    ControllerState::CampaignRunning
                },
                campaign: ReauthCampaign {
                    attempt_count: count,
                    in_progress: true,
                    last_outcome: Some(AttemptOutcome::Failure(reason)),
                },
                attempt_running: false,
                running_ms: 0,
                wait_left_ms: wait.ms,
            },
            action: ControllerAction {
                teardown: true,
                next: Directive::Wait { ms: slice_of(policy, wait.ms) },
                notice: if wait.cooldown {
                    Notice::EnteredCooldown
                } else {
                    Notice::AttemptFailed
                },
            },
        }
    }

    /// The monitor published `transition`. `auto_login` and
    /// `credentials_complete` say what the settings allow.
    pub open spec fn on_transition(
        self,
        auto_login: bool,
        credentials_complete: bool,
        transition: Transition,
    ) -> Step {
        if transition.is_disconnect() {
            if self.state != ControllerState::Idle || !auto_login {
                self.ignore()
            } else if !credentials_complete {
                Step {
                    machine: self.reset(
                        Some(AttemptOutcome::Failure(FailureReason::Configuration)),
                    ),
                    action: ControllerAction {
                        teardown: false,
                        next: Directive::Listen,
                        notice: Notice::CredentialsMissing,
                    },
                }
            } else {
                Step {
                    machine: self.attempting(1),
                    action: ControllerAction {
                        teardown: false,
                        next: Directive::Login { attempt: 1 },
                        notice: Notice::CampaignStarted,
                    },
                }
            }
        } else if transition.is_reconnect() && self.state != ControllerState::Idle {
            self.cancel()
        } else {
            self.ignore()
        }
    }

    /// `elapsed_ms` milliseconds went by and the snapshot reads `connected`.
    pub open spec fn on_tick(self, policy: PolicyView, elapsed_ms: u64, connected: bool) -> Step {
        if self.state == ControllerState::Idle {
            self.ignore()
        } else if connected {
            self.cancel()
        } else if self.attempt_running {
            if self.running_ms + elapsed_ms >= policy.attempt_ceiling_ms {
                self.fail(policy, FailureReason::Timeout)
            } else {
                Step {
                    machine: Machine { running_ms: (self.running_ms + elapsed_ms) as u64, ..self },
                    action: ControllerAction {
                        teardown: false,
                        next: Directive::Wait { ms: policy.cancel_check_ms as u64 },
                        notice: Notice::Nothing,
                    },
                }
            }
        } else if elapsed_ms >= self.wait_left_ms {
            if self.state == ControllerState::Cooldown {
                Step {
                    machine: self.attempting(1),
                    action: ControllerAction {
                        teardown: false,
                        next: Directive::Login { attempt: 1 },
                        notice: Notice::CycleRestarted,
                    },
                }
            } else {
                Step {
                    machine: self.attempting(self.campaign.attempt_count),
                    action: ControllerAction {
                        teardown: false,
                        next: Directive::Login { attempt: self.campaign.attempt_count },
                        notice: Notice::Retrying,
                    },
                }
            }
        } else {
            let left = (self.wait_left_ms - elapsed_ms) as u64;
            Step {
                machine: Machine { wait_left_ms: left, ..self },
                action: ControllerAction {
                    teardown: false,
                    next: Directive::Wait { ms: slice_of(policy, left) },
                    notice: Notice::Nothing,
                },
            }
        }
    }

    /// The executor returned with `outcome`. A result that no running attempt
    /// is waiting for is ignored.
    pub open spec fn on_login_finished(self, policy: PolicyView, outcome: AttemptOutcome) -> Step {
        if !self.attempt_running {
            self.ignore()
        } else {
            match outcome {
                AttemptOutcome::Success => Step {
                    machine: self.reset(Some(AttemptOutcome::Success)),
                    action: ControllerAction {
                        teardown: true,
                        next: Directive::Listen,
                        notice: Notice::AttemptSucceeded,
                    },
                },
                AttemptOutcome::Failure(reason) => if reason.retryable() {
                    self.fail(policy, reason)
                } else {
                    Step {
                        machine: self.reset(Some(outcome)),
                        action: ControllerAction {
                            teardown: true,
                            next: Directive::Listen,
                            notice: Notice::ConfigurationRejected,
                        },
                    }
                },
            }
        }
    }

    /// The machine after `event`, and the answer to it.
    pub open spec fn step(
        self,
        policy: PolicyView,
        auto_login: bool,
        credentials_complete: bool,
        event: ControllerEvent,
    ) -> Step {
        match event {
            ControllerEvent::Transition(transition) => self.on_transition(
                auto_login,
                credentials_complete,
                transition,
            ),
            ControllerEvent::Tick { elapsed_ms, connected } => self.on_tick(
                policy,
                elapsed_ms,
                connected,
            ),
            ControllerEvent::LoginFinished(outcome) => self.on_login_finished(policy, outcome),
        }
    }

    /// The machine after `events`, one after the other, under settings that
    /// stay as they are.
    pub open spec fn run(
        self,
        policy: PolicyView,
        auto_login: bool,
        credentials_complete: bool,
        events: Seq<ControllerEvent>,
    ) -> Machine
        decreases events.len(),
    {
        if events.len() == 0 {
            self
        } else {
            self.run(policy, auto_login, credentials_complete, events.drop_last()).step(
                policy,
                auto_login,
                credentials_complete,
                events.last(),
            ).machine
        }
    }

    /// Campaigns under way after `events`, counted from what the controller
    /// said: one more for every campaign it announced, one less for every
    /// campaign it declared over.
    pub open spec fn campaigns_open(
        self,
        policy: PolicyView,
        auto_login: bool,
        credentials_complete: bool,
        events: Seq<ControllerEvent>,
    ) -> int
        decreases events.len(),
    {
        if events.len() == 0 {
            if self.campaign.in_progress {
                1
            } else {
                0
            }
        } else {
            let earlier = events.drop_last();
            let open = self.campaigns_open(policy, auto_login, credentials_complete, earlier);
            let notice = self.run(policy, auto_login, credentials_complete, earlier).step(
                policy,
                auto_login,
                credentials_complete,
                events.last(),
            ).action.notice;
            if notice == Notice::CampaignStarted {
                open + 1
            } else if notice == Notice::AttemptSucceeded || notice == Notice::ConfigurationRejected
                || notice == Notice::Cancelled {
                open - 1
            } else {
                open
            }
        }
    }

    /// Login attempts with the executor after `events`, counted from outside:
    /// one more for every login the controller asked for, one less whenever the
    /// executor returned or the controller had its session torn down while an
    /// attempt was out.
    pub open spec fn attempts_open(
        self,
        policy: PolicyView,
        auto_login: bool,
        credentials_complete: bool,
        events: Seq<ControllerEvent>,
    ) -> int
        decreases events.len(),
    {
        if events.len() == 0 {
            if self.attempt_running {
                1
            } else {
                0
            }
        } else {
            let earlier = events.drop_last();
            let open = self.attempts_open(policy, auto_login, credentials_complete, earlier);
            let action = self.run(policy, auto_login, credentials_complete, earlier).step(
                policy,
                auto_login,
                credentials_complete,
                events.last(),
            ).action;
            let back = open > 0 && (events.last() is LoginFinished || action.teardown);
            open - (if back {
                1int
            } else {
                0int
            }) + (if action.next is Login {
                1int
            } else {
                0int
            })
        }
    }
}

/// What a controller is in contracts: its policy, its machine, the settings
/// as they were last given to it, and the credentials that the campaign under
/// way was started with.
pub struct ControllerView {
    pub policy: PolicyView,
    pub machine: Machine,
    pub settings: ConfigView,
    pub credentials: ConfigView,
}

impl ControllerView {
    /// An idle controller that runs on `policy` and signs in with `settings`.
    pub open spec fn fresh(policy: PolicyView, settings: ConfigView) -> ControllerView {
        ControllerView { policy, machine: Machine::idle(), settings, credentials: settings }
    }

    /// The same controller with `settings` for the settings last given to it.
    pub open spec fn with_settings(self, settings: ConfigView) -> ControllerView {
        ControllerView { settings, ..self }
    }

    /// The controller after `event`, and the answer to it. A campaign that
    /// starts takes the settings of that moment as its credentials; settings
    /// that change later wait for the next campaign.
    pub open spec fn step(self, event: ControllerEvent) -> (ControllerView, ControllerAction) {
        let step = self.machine.step(
            self.policy,
            self.settings.auto_login,
            self.settings.credentials_complete(),
            event,
        );
        (
            ControllerView {
                policy: self.policy,
                machine: step.machine,
                settings: self.settings,
                credentials: if step.action.notice == Notice::CampaignStarted {
                    self.settings
                } else {
                    self.credentials
                },
            },
            step.action,
        )
    }
}

/// Drives the login executor whenever the host loses its connection.
pub struct AutoReauthController {
    policy: RetryPolicy,
    machine: Machine,
    settings: Config,
    credentials: Config,
}

impl View for AutoReauthController {
    type V = ControllerView;

    closed spec fn view(&self) -> ControllerView {
        ControllerView {
            policy: self.policy@,
            machine: self.machine,
            settings: self.settings@,
            credentials: self.credentials@,
        }
    }
}

impl AutoReauthController {
    #[verifier::type_invariant]
    spec fn inv(self) -> bool {
        self.machine.wf(self.policy@)
    }

    /// An idle controller that runs on `policy` and signs in with `settings`.
    pub fn new(policy: RetryPolicy, settings: Config) -> (controller: AutoReauthController)
        ensures
            controller@ == ControllerView::fresh(policy@, settings@),
            controller@.machine.wf(controller@.policy),
    {
        let _ = policy.max_attempts_before_cooldown();
        let credentials = settings.clone();
        AutoReauthController {
            policy,
            machine: Machine {
                state: ControllerState::Idle,
                campaign: ReauthCampaign {
                    attempt_count: 0,
                    in_progress: false,
                    last_outcome: None,
                },
                attempt_running: false,
                running_ms: 0,
                wait_left_ms: 0,
            },
            settings,
            credentials,
        }
    }

    /// Where the controller stands.
    pub fn state(&self) -> (state: ControllerState)
        ensures
            state == self@.machine.state,
            self@.machine.wf(self@.policy),
    {
        proof {
            use_type_invariant(self);
        }
        self.machine.state
    }

    /// The whole of what events change.
    pub fn machine(&self) -> (machine: Machine)
        ensures
            machine == self@.machine,
            machine.wf(self@.policy),
    {
        proof {
            use_type_invariant(self);
        }
        self.machine
    }

    /// The record of the campaign.
    pub fn campaign(&self) -> (campaign: ReauthCampaign)
        ensures
            campaign == self@.machine.campaign,
    {
        self.machine.campaign
    }

    /// Number of the attempt that is running or comes next; zero when idle.
    pub fn attempt_count(&self) -> (count: u32)
        ensures
            count == self@.machine.campaign.attempt_count,
            self@.machine.state == ControllerState::Idle ==> count == 0,
    {
        proof {
            use_type_invariant(self);
        }
        self.machine.campaign.attempt_count
    }

    /// True while a campaign is under way.
    pub fn is_in_progress(&self) -> (in_progress: bool)
        ensures
            in_progress == self@.machine.campaign.in_progress,
            in_progress == (self@.machine.state != ControllerState::Idle),
    {
        proof {
            use_type_invariant(self);
        }
        self.machine.campaign.in_progress
    }

    /// The policy the controller runs on.
    pub fn policy(&self) -> (policy: RetryPolicy)
        ensures
            policy@ == self@.policy,
    {
        self.policy
    }

    /// The settings as they were last given to the controller.
    pub fn settings(&self) -> (settings: &Config)
        ensures
            settings@ == self@.settings,
    {
        &self.settings
    }

    /// The credentials that the campaign under way was started with.
    pub fn credentials(&self) -> (credentials: &Config)
        ensures
            credentials@ == self@.credentials,
    {
        &self.credentials
    }

    /// Takes new settings. They decide whether the next campaign starts and
    /// what it signs in with; a campaign under way keeps its credentials.
    pub fn update_settings(&mut self, settings: Config)
        ensures
            final(self)@ == old(self)@.with_settings(settings@),
    {
        proof {
            use_type_invariant(&*self);
        }
        self.settings = settings;
    }

    /// Takes an event and says what to do next.
    pub fn step(&mut self, event: ControllerEvent) -> (action: ControllerAction)
        ensures
            (final(self)@, action) == old(self)@.step(event),
            old(self)@.machine.wf(old(self)@.policy),
            final(self)@.machine.wf(final(self)@.policy),
    {
        proof {
            use_type_invariant(&*self);
            law_step_keeps_well_formed(
                self@.policy,
                self@.machine,
                self@.settings.auto_login,
                self@.settings.credentials_complete(),
                event,
            );
        }
        let step = advance(
            &self.policy,
            self.machine,
            self.settings.auto_login,
            self.settings.credentials_complete(),
            event,
        );
        self.machine = step.0;
        if step.1.notice == Notice::CampaignStarted {
            self.credentials = self.settings.clone();
        }
        step.1
    }

    /// The monitor published `transition`.
    pub fn on_transition(&mut self, transition: Transition) -> (action: ControllerAction)
        ensures
            (final(self)@, action) == old(self)@.step(ControllerEvent::Transition(transition)),
    {
        self.step(ControllerEvent::Transition(transition))
    }

    /// `elapsed_ms` milliseconds went by and the snapshot reads `connected`.
    pub fn on_tick(&mut self, elapsed_ms: u64, connected: bool) -> (action: ControllerAction)
        ensures
            (final(self)@, action) == old(self)@.step(
                ControllerEvent::Tick { elapsed_ms, connected },
            ),
    {
        self.step(ControllerEvent::Tick { elapsed_ms, connected })
    }

    /// The executor returned with `outcome`.
    pub fn on_login_finished(&mut self, outcome: AttemptOutcome) -> (action: ControllerAction)
        ensures
            (final(self)@, action) == old(self)@.step(ControllerEvent::LoginFinished(outcome)),
    {
        self.step(ControllerEvent::LoginFinished(outcome))
    }
}

/// The shorter of a wait and the policy's cancellation-check interval.
fn slice(policy: &RetryPolicy, wait_ms: u64) -> (ms: u64)
    ensures
        ms == slice_of(policy@, wait_ms),
{
    let check = policy.cancel_check_ms();
    if wait_ms <= check {
        wait_ms
    } else {
        check
    }
}

/// The answer that changes nothing.
fn unchanged(machine: Machine) -> (step: (Machine, ControllerAction))
    ensures
        step.0 == machine.ignore().machine,
        step.1 == machine.ignore().action,
{
    (
        machine,
        ControllerAction { teardown: false, next: Directive::Continue, notice: Notice::Nothing },
    )
}

/// Back to idle, remembering `outcome`.
fn reset(outcome: Option<AttemptOutcome>) -> (machine: Machine)
    ensures
        forall|before: Machine| #[trigger] before.reset(outcome) == machine,
{
    Machine {
        state: ControllerState::Idle,
        campaign: ReauthCampaign { attempt_count: 0, in_progress: false, last_outcome: outcome },
        attempt_running: false,
        running_ms: 0,
        wait_left_ms: 0,
    }
}

/// Attempt number `attempt` is handed to the executor.
fn attempting(machine: Machine, attempt: u32) -> (after: Machine)
    ensures
        after == machine.attempting(attempt),
{
    Machine {
        state: ControllerState::CampaignRunning,
        campaign: ReauthCampaign {
            attempt_count: attempt,
            in_progress: true,
            last_outcome: machine.campaign.last_outcome,
        },
        attempt_running: true,
        running_ms: 0,
        wait_left_ms: 0,
    }
}

/// The campaign is dropped because the host is online again.
fn cancel(machine: Machine) -> (step: (Machine, ControllerAction))
    ensures
        step.0 == machine.cancel().machine,
        step.1 == machine.cancel().action,
{
    (
        reset(machine.campaign.last_outcome),
        ControllerAction { teardown: true, next: Directive::Listen, notice: Notice::Cancelled },
    )
}

/// The running attempt failed for a reason that is worth another attempt.
fn fail(policy: &RetryPolicy, machine: Machine, reason: FailureReason) -> (step: (
    Machine,
    ControllerAction,
))
    requires
        machine.wf(policy@),
        machine.attempt_running,
    ensures
        step.0 == machine.fail(policy@, reason).machine,
        step.1 == machine.fail(policy@, reason).action,
{
    let count = machine.campaign.attempt_count + 1;
    let wait = policy.wait_after(count);
    (
        Machine {
            state: if wait.cooldown {
                ControllerState::Cooldown
            } else {
                ControllerState::CampaignRunning
            },
            campaign: ReauthCampaign {
                attempt_count: count,
                in_progress: true,
                last_outcome: Some(AttemptOutcome::Failure(reason)),
            },
            attempt_running: false,
            running_ms: 0,
            wait_left_ms: wait.ms,
        },
        ControllerAction {
            teardown: true,
            next: Directive::Wait { ms: slice(policy, wait.ms) },
            notice: if wait.cooldown {
                Notice::EnteredCooldown
            } else {
                Notice::AttemptFailed
            },
        },
    )
}

/// The machine after `event`, and the answer to it.
fn advance(
    policy: &RetryPolicy,
    machine: Machine,
    auto_login: bool,
    credentials_complete: bool,
    event: ControllerEvent,
) -> (step: (Machine, ControllerAction))
    requires
        machine.wf(policy@),
    ensures
        step.0 == machine.step(policy@, auto_login, credentials_complete, event).machine,
        step.1 == machine.step(policy@, auto_login, credentials_complete, event).action,
{
    let idle = machine.state == ControllerState::Idle;
    match event {
        ControllerEvent::Transition(transition) => {
            if transition.lost_connection() {
                if !idle || !auto_login {
                    unchanged(machine)
                } else if !credentials_complete {
                    (
                        reset(Some(AttemptOutcome::Failure(FailureReason::Configuration))),
                        ControllerAction {
                            teardown: false,
                            next: Directive::Listen,
                            notice: Notice::CredentialsMissing,
                        },
                    )
                } else {
                    (
                        attempting(machine, 1),
                        ControllerAction {
                            teardown: false,
                            next: Directive::Login { attempt: 1 },
                            notice: Notice::CampaignStarted,
                        },
                    )
                }
            } else if transition.regained_connection() && !idle {
                cancel(machine)
            } else {
                unchanged(machine)
            }
        },
        ControllerEvent::Tick { elapsed_ms, connected } => {
            if idle {
                unchanged(machine)
            } else if connected {
                cancel(machine)
            } else if machine.attempt_running {
                let ceiling = policy.attempt_ceiling_ms();
                if elapsed_ms >= ceiling - machine.running_ms {
                    fail(policy, machine, FailureReason::Timeout)
                } else {
                    (
                        Machine {
                            state: machine.state,
                            campaign: machine.campaign,
                            attempt_running: machine.attempt_running,
                            running_ms: machine.running_ms + elapsed_ms,
                            wait_left_ms: machine.wait_left_ms,
                        },
                        ControllerAction {
                            teardown: false,
                            next: Directive::Wait { ms: policy.cancel_check_ms() },
                            notice: Notice::Nothing,
                        },
                    )
                }
            } else if elapsed_ms >= machine.wait_left_ms {
                if machine.state == ControllerState::Cooldown {
                    (
                        attempting(machine, 1),
                        ControllerAction {
                            teardown: false,
                            next: Directive::Login { attempt: 1 },
                            notice: Notice::CycleRestarted,
                        },
                    )
                } else {
                    (
                        attempting(machine, machine.campaign.attempt_count),
                        ControllerAction {
                            teardown: false,
                            next: Directive::Login { attempt: machine.campaign.attempt_count },
                            notice: Notice::Retrying,
                        },
                    )
                }
            } else {
                let left = machine.wait_left_ms - elapsed_ms;
                (
                    Machine {
                        state: machine.state,
                        campaign: machine.campaign,
                        attempt_running: machine.attempt_running,
                        running_ms: machine.running_ms,
                        wait_left_ms: left,
                    },
                    ControllerAction {
                        teardown: false,
                        next: Directive::Wait { ms: slice(policy, left) },
                        notice: Notice::Nothing,
                    },
                )
            }
        },
        ControllerEvent::LoginFinished(outcome) => {
            if !machine.attempt_running {
                unchanged(machine)
            } else {
                match outcome {
                    AttemptOutcome::Success => (
                        reset(Some(AttemptOutcome::Success)),
                        ControllerAction {
                            teardown: true,
                            next: Directive::Listen,
                            notice: Notice::AttemptSucceeded,
                        },
                    ),
                    AttemptOutcome::Failure(reason) => if reason.is_retryable() {
                        fail(policy, machine, reason)
                    } else {
                        (
                            reset(Some(outcome)),
                            ControllerAction {
                                teardown: true,
                                next: Directive::Listen,
                                notice: Notice::ConfigurationRejected,
                            },
                        )
                    },
                }
            }
        },
    }
}

/// Every step leaves the machine as every controller's machine is: idle with
/// the counter at zero, or in a campaign with the counter within its bounds.
pub proof fn law_step_keeps_well_formed(
    policy: PolicyView,
    machine: Machine,
    auto_login: bool,
    credentials_complete: bool,
    event: ControllerEvent,
)
    requires
        machine.wf(policy),
    ensures
        machine.step(policy, auto_login, credentials_complete, event).machine.wf(policy),
{
    let count = (machine.campaign.attempt_count + 1) as nat;
    if count <= policy.max_attempts {
        law_backoff_monotonic(policy, count, count);
        law_backoff_monotonic(policy, 1, count);
        assert(policy.backoff_at(1) >= 1) by {
            crate::backend::policy::lemma_first_backoff_positive(policy);
        }
    }
}

/// Every run leaves the machine as every controller's machine is.
pub proof fn lemma_run_keeps_well_formed(
    policy: PolicyView,
    machine: Machine,
    auto_login: bool,
    credentials_complete: bool,
    events: Seq<ControllerEvent>,
)
    requires
        machine.wf(policy),
    ensures
        machine.run(policy, auto_login, credentials_complete, events).wf(policy),
    decreases events.len(),
{
    if events.len() > 0 {
        lemma_run_keeps_well_formed(
            policy,
            machine,
            auto_login,
            credentials_complete,
            events.drop_last(),
        );
        law_step_keeps_well_formed(
            policy,
            machine.run(policy, auto_login, credentials_complete, events.drop_last()),
            auto_login,
            credentials_complete,
            events.last(),
        );
    }
}

/// Edge-triggering, at the controller: a campaign starts on an event exactly
/// when the event is the edge from connected to disconnected, the controller
/// is idle and the settings ask for automatic sign-in with both parts of the
/// credentials. It then starts with attempt number one, at once.
pub proof fn law_campaign_starts_on_disconnect_edge(
    policy: PolicyView,
    machine: Machine,
    auto_login: bool,
    credentials_complete: bool,
    event: ControllerEvent,
)
    requires
        machine.wf(policy),
    ensures
        ({
            let step = machine.step(policy, auto_login, credentials_complete, event);
            let started = !machine.campaign.in_progress && step.machine.campaign.in_progress;
            let edge = event matches ControllerEvent::Transition(transition)
                && transition.is_disconnect();
            &&& started <==> edge && machine.state == ControllerState::Idle && auto_login
                && credentials_complete
            &&& started <==> step.action.notice == Notice::CampaignStarted
            &&& started ==> step.action.next == (Directive::Login { attempt: 1 })
                && step.machine.campaign.attempt_count == 1 && step.machine.attempt_running
        }),
{
}

/// Edge-triggering, from the probes on: when a round's verdict reaches the
/// monitor and what the monitor publishes reaches an idle controller whose
/// settings are complete, a campaign starts exactly when the monitor stood at
/// connected and the round found the host disconnected. A verdict that repeats
/// the state, and the first verdict of all, start nothing.
pub proof fn law_edge_triggering(
    monitor: MonitorView,
    policy: PolicyView,
    machine: Machine,
    reachable: bool,
    timestamp: u64,
)
    requires
        machine.wf(policy),
        machine.state == ControllerState::Idle,
    ensures
        ({
            let after = match monitor.transition_on(reachable, timestamp) {
                Some(transition) => machine.step(
                    policy,
                    true,
                    true,
                    ControllerEvent::Transition(transition),
                ).machine,
                None => machine,
            };
            after.campaign.in_progress <==> monitor.state == Some(ConnectivityState::Connected)
                && !reachable
        }),
{
}

/// Mutual exclusion, step by step: while a campaign is under way a further
/// edge from connected to disconnected changes nothing and asks for nothing,
/// and a login is only ever asked for while none is with the executor.
pub proof fn law_single_campaign(
    policy: PolicyView,
    machine: Machine,
    auto_login: bool,
    credentials_complete: bool,
    event: ControllerEvent,
)
    requires
        machine.wf(policy),
    ensures
        ({
            let step = machine.step(policy, auto_login, credentials_complete, event);
            &&& machine.campaign.in_progress && (event matches ControllerEvent::Transition(
                transition,
            ) && transition.is_disconnect()) ==> step == machine.ignore()
            &&& step.action.next is Login ==> !machine.attempt_running
                && step.machine.attempt_running && !step.action.teardown
            &&& machine.attempt_running && !step.machine.attempt_running ==> event is LoginFinished
                || step.action.teardown
        }),
{
}

/// Mutual exclusion, over any sequence of events: counted from what the
/// controller announces, never more than one campaign is under way, and
/// counted from the logins it asks for and the results and teardowns that
/// follow, never more than one attempt is with the executor.
pub proof fn law_mutual_exclusion(
    policy: PolicyView,
    machine: Machine,
    auto_login: bool,
    credentials_complete: bool,
    events: Seq<ControllerEvent>,
)
    requires
        machine.wf(policy),
    ensures
        ({
            let last = machine.run(policy, auto_login, credentials_complete, events);
            let campaigns = machine.campaigns_open(
                policy,
                auto_login,
                credentials_complete,
                events,
            );
            let attempts = machine.attempts_open(policy, auto_login, credentials_complete, events);
            &&& 0 <= campaigns <= 1
            &&& 0 <= attempts <= 1
            &&& campaigns == 1 <==> last.campaign.in_progress
            &&& attempts == 1 <==> last.attempt_running
            &&& attempts <= campaigns
        }),
    decreases events.len(),
{
    if events.len() > 0 {
        let earlier = events.drop_last();
        law_mutual_exclusion(policy, machine, auto_login, credentials_complete, earlier);
        lemma_run_keeps_well_formed(policy, machine, auto_login, credentials_complete, earlier);
        let before = machine.run(policy, auto_login, credentials_complete, earlier);
        law_step_keeps_well_formed(
            policy,
            before,
            auto_login,
            credentials_complete,
            events.last(),
        );
    }
}

/// Backoff monotonicity, at the controller: when two attempts of one cycle
/// fail one after the other, the wait after the second is at least the wait
/// after the first, whether it is another backoff or the cooldown.
pub proof fn law_consecutive_failures_wait_longer(
    policy: PolicyView,
    machine: Machine,
    first: FailureReason,
    second: FailureReason,
)
    requires
        machine.wf(policy),
        machine.attempt_running,
        first.retryable(),
        second.retryable(),
    ensures
        ({
            let failed = machine.on_login_finished(policy, AttemptOutcome::Failure(first)).machine;
            let retried = failed.on_tick(policy, failed.wait_left_ms, false).machine;
            let failed_again = retried.on_login_finished(
                policy,
                AttemptOutcome::Failure(second),
            ).machine;
            failed.state == ControllerState::CampaignRunning ==> {
                &&& failed.wait_left_ms == policy.backoff_at(failed.campaign.attempt_count as nat)
                &&& retried.attempt_running
                &&& retried.campaign.attempt_count == failed.campaign.attempt_count
                &&& failed_again.campaign.attempt_count == failed.campaign.attempt_count + 1
                &&& failed_again.wait_left_ms >= failed.wait_left_ms
                &&& failed_again.state == ControllerState::Cooldown ==> failed_again.wait_left_ms
                    == policy.cooldown_ms
            }
        }),
{
    let count = (machine.campaign.attempt_count + 1) as nat;
    if count <= policy.max_attempts {
        law_backoff_monotonic(policy, count, count);
        crate::backend::policy::lemma_first_backoff_positive(policy);
        law_backoff_monotonic(policy, 1, count);
        if count + 1 <= policy.max_attempts {
            law_backoff_monotonic(policy, count, count + 1);
        }
    }
}

/// Cancellation: a wait is handed out in slices no longer than the policy's
/// cancellation-check interval, and when the tick that follows a slice finds
/// the host connected, the controller is idle at once, however much of the
/// wait is left.
pub proof fn law_reconnect_cancels_wait(
    policy: PolicyView,
    machine: Machine,
    auto_login: bool,
    credentials_complete: bool,
    event: ControllerEvent,
    elapsed_ms: u64,
)
    requires
        machine.wf(policy),
    ensures
        ({
            let step = machine.step(policy, auto_login, credentials_complete, event);
            let tick = ControllerEvent::Tick { elapsed_ms, connected: true };
            let next = step.machine.step(policy, auto_login, credentials_complete, tick);
            &&& step.action.next matches Directive::Wait { ms } ==> 0 < ms
                <= policy.cancel_check_ms && step.machine.campaign.in_progress
            &&& step.machine.campaign.in_progress ==> {
                &&& next.machine.state == ControllerState::Idle
                &&& next.machine.campaign.attempt_count == 0
                &&& !next.machine.campaign.in_progress
                &&& next.action.teardown
                &&& next.action.next == Directive::Listen
            }
        }),
{
    law_step_keeps_well_formed(policy, machine, auto_login, credentials_complete, event);
}

/// Counter reset: whatever the event, if the controller is idle after it the
/// attempt counter reads zero, no campaign is in progress and nothing is
/// pending; and a login that succeeds, a reconnect seen during a campaign and
/// a failure of the settings each leave the controller idle.
pub proof fn law_idle_resets_counter(
    policy: PolicyView,
    machine: Machine,
    auto_login: bool,
    credentials_complete: bool,
    event: ControllerEvent,
)
    requires
        machine.wf(policy),
    ensures
        ({
            let step = machine.step(policy, auto_login, credentials_complete, event);
            let to_idle = match event {
                ControllerEvent::LoginFinished(outcome) => machine.attempt_running && (outcome
                    == AttemptOutcome::Success || outcome == AttemptOutcome::Failure(
                    FailureReason::Configuration,
                )),
                ControllerEvent::Tick { connected, .. } => connected,
                ControllerEvent::Transition(transition) => transition.is_reconnect()
                    || (transition.is_disconnect() && machine.state == ControllerState::Idle
                    && auto_login && !credentials_complete),
            };
            &&& step.machine.state == ControllerState::Idle ==> {
                &&& step.machine.campaign.attempt_count == 0
                &&& !step.machine.campaign.in_progress
                &&& !step.machine.attempt_running
                &&& step.machine.wait_left_ms == 0
            }
            &&& to_idle ==> step.machine.state == ControllerState::Idle
            &&& machine.campaign.in_progress && step.machine.state == ControllerState::Idle
                ==> step.action.teardown
        }),
{
    law_step_keeps_well_formed(policy, machine, auto_login, credentials_complete, event);
}

} // verus!
