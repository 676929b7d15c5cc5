//! The model behind the window: the settings being edited, the connectivity
//! status as it was last shown, and the log.

use vstd::prelude::*;
use crate::backend::config::Config;
use crate::backend::config::ConfigView;
use crate::backend::controller::AutoReauthController;
use crate::backend::controller::ControllerAction;
use crate::backend::controller::ControllerEvent;
use crate::backend::controller::ControllerView;
use crate::backend::network_monitor::ConnectivityState;
use crate::backend::network_monitor::MonitorView;
use crate::backend::network_monitor::NetworkMonitor;
use crate::backend::policy::RetryPolicy;
use crate::backend::text::contains;
use crate::backend::text::has;
use crate::backend::text::joined;

verus! {

/// Most lines the log keeps; the oldest line leaves when one more comes in.
pub const MAX_LOG_LINES: usize = 100;

/// Colour of the status line.
#[derive(Clone, Copy, Debug, PartialEq, Eq, Structural)]
pub enum StatusColor {
    Green,
    Red,
}

/// Calls `chrono::Local::now()` and reads the hour, the minute and the second
/// off the result with `Timelike::hour`, `minute` and `second`. The clock
/// decides what comes back; the three numbers are within the ranges that
/// chrono documents for them.
#[verifier::external_body]
fn local_time_of_day() -> (time: (u32, u32, u32))
    ensures
        time.0 < 24,
        time.1 < 60,
        time.2 < 60,
{
    let now = chrono::Local::now();
    (chrono::Timelike::hour(&now), chrono::Timelike::minute(&now), chrono::Timelike::second(&now))
}

/// The digit `d` as text.
pub open spec fn digit_text(d: int) -> Seq<char> {
    if d == 0 {
        "0"@
    } else if d == 1 {
        "1"@
    } else if d == 2 {
        "2"@
    } else if d == 3 {
        "3"@
    } else if d == 4 {
        "4"@
    } else if d == 5 {
        "5"@
    } else if d == 6 {
        "6"@
    } else if d == 7 {
        "7"@
    } else if d == 8 {
        "8"@
    } else {
        "9"@
    }
}

/// A number below one hundred in two digits.
pub open spec fn two_digits(n: int) -> Seq<char> {
    digit_text(n / 10) + digit_text(n % 10)
}

/// A time of day as `HH:MM:SS`.
pub open spec fn clock_text(hour: int, minute: int, second: int) -> Seq<char> {
    two_digits(hour) + ":"@ + two_digits(minute) + ":"@ + two_digits(second)
}

/// True when `label` is a time of day as a clock shows it.
pub open spec fn is_clock(label: Seq<char>) -> bool {
    exists|hour: int, minute: int, second: int|
        0 <= hour < 24 && 0 <= minute < 60 && 0 <= second < 60 && label == #[trigger] clock_text(
            hour,
            minute,
            second,
        )
}

/// The text of a time of day is a clock's.
proof fn lemma_clock(hour: int, minute: int, second: int)
    requires
        0 <= hour < 24,
        0 <= minute < 60,
        0 <= second < 60,
    ensures
        is_clock(clock_text(hour, minute, second)),
        hour % 100 == hour,
        minute % 100 == minute,
        second % 100 == second,
{
}

/// A log line: the time in square brackets, a blank, and the message.
pub open spec fn stamped(label: Seq<char>, message: Seq<char>) -> Seq<char> {
    "["@ + label + "] "@ + message
}

/// The log after `line` came in: the line is appended, and the oldest line
/// leaves if the log would hold more than [`MAX_LOG_LINES`].
pub open spec fn appended(log: Seq<Seq<char>>, line: Seq<char>) -> Seq<Seq<char>> {
    let longer = log.push(line);
    if longer.len() > MAX_LOG_LINES {
        longer.skip(1)
    } else {
        longer
    }
}

/// The views of a list of lines, in order.
pub open spec fn line_views(lines: Seq<String>) -> Seq<Seq<char>> {
    Seq::new(lines.len(), |i: int| lines[i]@)
}

/// The digit `d` as text.
fn digit(d: u32) -> (text: &'static str)
    requires
        d < 10,
    ensures
        text@ == digit_text(d as int),
{
    if d == 0 {
        "0"
    } else if d == 1 {
        "1"
    } else if d == 2 {
        "2"
    } else if d == 3 {
        "3"
    } else if d == 4 {
        "4"
    } else if d == 5 {
        "5"
    } else if d == 6 {
        "6"
    } else if d == 7 {
        "7"
    } else if d == 8 {
        "8"
    } else {
        "9"
    }
}

/// A time of day as `HH:MM:SS`. Each number is shown by its last two digits.
pub fn clock_label(hour: u32, minute: u32, second: u32) -> (label: String)
    ensures
        label@ == clock_text((hour % 100) as int, (minute % 100) as int, (second % 100) as int),
{
    let h = hour % 100;
    let m = minute % 100;
    let s = second % 100;
    let mut label = joined(digit(h / 10), digit(h % 10));
    label.append(":");
    label.append(digit(m / 10));
    label.append(digit(m % 10));
    label.append(":");
    label.append(digit(s / 10));
    label.append(digit(s % 10));
    assert(label@ =~= clock_text(h as int, m as int, s as int));
    label
}

/// Hint shown when an installation fails for want of a network.
pub const NETWORK_HINT: &'static str = "Network error: Please check your internet connection";

/// Hint shown when an installation fails for want of rights.
pub const PERMISSION_HINT: &'static str =
    "Permission error: Please run the program with administrator privileges";

/// What the model is in contracts.
pub struct UiView {
    pub monitor: MonitorView,
    pub config: ConfigView,
    pub log: Seq<Seq<char>>,
    /// The status as it was last shown; none before the monitor's first
    /// verdict was seen.
    pub last_network_status: Option<bool>,
    pub chrome_installed: bool,
    /// The controller of automatic sign-in, once it was started.
    pub auto_login: Option<ControllerView>,
}

/// The model behind the window.
pub struct UI {
    pub network_monitor: NetworkMonitor,
    pub config: Config,
    pub log_messages: Vec<String>,
    pub auto_login: Option<AutoReauthController>,
    pub last_network_status: Option<bool>,
    pub chrome_installed: bool,
}

impl View for UI {
    type V = UiView;

    open spec fn view(&self) -> UiView {
        UiView {
            monitor: self.network_monitor@,
            config: self.config@,
            log: line_views(self.log_messages@),
            last_network_status: self.last_network_status,
            chrome_installed: self.chrome_installed,
            auto_login: match self.auto_login {
                Some(controller) => Some(controller@),
                None => None,
            },
        }
    }
}

impl UiView {
    /// The same model with `log` for its log.
    pub open spec fn with_log(self, log: Seq<Seq<char>>) -> UiView {
        UiView { log, ..self }
    }

    /// The same model with `controller` for the controller of automatic
    /// sign-in.
    pub open spec fn with_auto_login(self, controller: Option<ControllerView>) -> UiView {
        UiView { auto_login: controller, ..self }
    }

    /// The same model with `shown` for the status last shown.
    pub open spec fn with_status(self, shown: Option<bool>) -> UiView {
        UiView { last_network_status: shown, ..self }
    }

    /// The same model after the settings were edited to `config`: they are
    /// the model's, and the controller of automatic sign-in, if there is one,
    /// is handed them.
    pub open spec fn with_config(self, config: ConfigView) -> UiView {
        UiView {
            config,
            auto_login: match self.auto_login {
                Some(running) => Some(running.with_settings(config)),
                None => None,
            },
            ..self
        }
    }

    /// The model at start-up, before anything was logged or started.
    pub open spec fn initial(monitor: MonitorView, config: ConfigView, chrome_installed: bool) -> UiView {
        UiView {
            monitor,
            config,
            log: Seq::empty(),
            last_network_status: None,
            chrome_installed,
            auto_login: None,
        }
    }

    /// The model after automatic sign-in was asked for, before that is
    /// logged. Without both parts of the credentials nothing changes. A
    /// controller that is there already stays, with its machine and with the
    /// credentials of its campaign, and is handed the settings as they are
    /// now; else an idle controller on the standard policy is installed, which
    /// signs in with the settings as they are now.
    pub open spec fn started(self) -> UiView {
        if !self.config.credentials_complete() {
            self
        } else {
            match self.auto_login {
                Some(running) => self.with_auto_login(Some(running.with_settings(self.config))),
                None => self.with_auto_login(
                    Some(ControllerView::fresh(RetryPolicy::standard(), self.config)),
                ),
            }
        }
    }

    /// The message that asking for automatic sign-in is logged with.
    pub open spec fn start_message(self) -> Seq<char> {
        if !self.config.credentials_complete() {
            "Auto login failed: Username or password is empty"@
        } else if self.auto_login is Some {
            "Auto login already running"@
        } else {
            "Auto login thread started"@
        }
    }

    /// The model after `event` was handed to the controller of automatic
    /// sign-in; without one, the same model.
    pub open spec fn stepped(self, event: ControllerEvent) -> UiView {
        match self.auto_login {
            Some(controller) => self.with_auto_login(Some(controller.step(event).0)),
            None => self,
        }
    }

    /// What the controller of automatic sign-in answers to `event`, if there
    /// is one.
    pub open spec fn answer(self, event: ControllerEvent) -> Option<ControllerAction> {
        match self.auto_login {
            Some(controller) => Some(controller.step(event).1),
            None => None,
        }
    }

    /// The monitor's last verdict as the status line shows it, if there was
    /// one.
    pub open spec fn verdict(self) -> Option<bool> {
        match self.monitor.state {
            Some(state) => Some(state == ConnectivityState::Connected),
            None => None,
        }
    }

    /// True when bringing the status up to the monitor's verdict is a change
    /// to log: there is a verdict, a status was shown before, and the two
    /// differ. The first verdict is taken in silence.
    pub open spec fn status_changed(self) -> bool {
        self.verdict() is Some && self.last_network_status is Some && self.verdict()
            != self.last_network_status
    }

    /// The same model after the line for `message` under the time `label`
    /// came into the log.
    pub open spec fn logging(self, label: Seq<char>, message: Seq<char>) -> UiView {
        self.with_log(appended(self.log, stamped(label, message)))
    }

    /// The text and the colour of the status line.
    pub open spec fn status(self) -> (Seq<char>, StatusColor) {
        if self.monitor.is_connected() {
            ("Connected"@, StatusColor::Green)
        } else {
            ("Disconnected"@, StatusColor::Red)
        }
    }

    /// The message that saving the settings is logged with: `failure` is what
    /// went wrong, if anything did.
    pub open spec fn save_message(failure: Option<&str>) -> Seq<char> {
        match failure {
            Some(reason) => "Failed to save config: "@ + reason@,
            None => "Configuration saved successfully"@,
        }
    }

    /// The message that a change of the status to `connected` is logged with.
    pub open spec fn status_message(connected: bool) -> Seq<char> {
        "Network status changed to: "@ + (if connected {
            "Connected"@
        } else {
            "Disconnected"@
        })
    }
}

impl UI {
    /// The model at start-up, with the settings that were loaded and with what
    /// is known of the browser's installation. Automatic sign-in starts at once
    /// when the settings ask for it and hold both parts of the credentials: an
    /// idle controller on the standard policy is installed, which signs in
    /// with those settings, and the log holds the one line that says so.
    pub fn new(network_monitor: NetworkMonitor, config: Config, chrome_installed: bool) -> (ui: UI)
        ensures
            !config@.auto_login_ready() ==> ui@ == UiView::initial(
                network_monitor@,
                config@,
                chrome_installed,
            ),
            config@.auto_login_ready() ==> exists|label: Seq<char>|
                is_clock(label) && ui@ == #[trigger] UiView::initial(
                    network_monitor@,
                    config@,
                    chrome_installed,
                ).started().logging(label, "Auto login thread started"@),
    {
        let ready = config.auto_login_ready();
        let mut ui = UI {
            network_monitor,
            config,
            log_messages: Vec::new(),
            auto_login: None,
            last_network_status: None,
            chrome_installed,
        };
        assert(ui@.log =~= Seq::<Seq<char>>::empty());
        if ready {
            let _ = ui.start_auto_login();
        }
        ui
    }

    /// The model with blank settings that point at the default portal, with
    /// no browser installed and without automatic sign-in.
    pub fn new_empty(network_monitor: NetworkMonitor) -> (ui: UI)
        ensures
            ui@ == UiView::initial(network_monitor@, ConfigView::fallback(), false),
    {
        let ui = UI {
            network_monitor,
            config: Config::fallback(),
            log_messages: Vec::new(),
            auto_login: None,
            last_network_status: None,
            chrome_installed: false,
        };
        assert(ui@.log =~= Seq::<Seq<char>>::empty());
        ui
    }

    /// Number of lines in the log.
    pub fn log_len(&self) -> (n: usize)
        ensures
            n == self@.log.len(),
    {
        self.log_messages.len()
    }

    /// Whether the browser and its driver were found installed.
    pub fn chrome_installed(&self) -> (installed: bool)
        ensures
            installed == self@.chrome_installed,
    {
        self.chrome_installed
    }

    /// Takes what a look at the disk found: the browser counts as installed
    /// when both its directory and its driver are there.
    pub fn check_chrome_installed(&mut self, chrome_exists: bool, chromedriver_exists: bool) -> (installed:
        bool)
        ensures
            installed == (chrome_exists && chromedriver_exists),
            final(self)@ == (UiView { chrome_installed: installed, ..old(self)@ }),
    {
        self.chrome_installed = chrome_exists && chromedriver_exists;
        self.chrome_installed
    }

    /// The controller of automatic sign-in, once it was started.
    pub fn auto_login(&self) -> (controller: Option<&AutoReauthController>)
        ensures
            match controller {
                Some(running) => self@.auto_login == Some(running@),
                None => self@.auto_login is None,
            },
    {
        match &self.auto_login {
            Some(controller) => Some(controller),
            None => None,
        }
    }

    /// Takes the settings as they were edited, and hands them to the
    /// controller of automatic sign-in if there is one: a campaign under way
    /// keeps its credentials, the next one signs in with the new ones.
    pub fn set_config(&mut self, config: Config)
        ensures
            final(self)@ == old(self)@.with_config(config@),
    {
        let mut slot: Option<AutoReauthController> = None;
        core::mem::swap(&mut slot, &mut self.auto_login);
        match slot {
            Some(mut running) => {
                running.update_settings(config.clone());
                self.auto_login = Some(running);
            },
            None => {},
        }
        self.config = config;
    }

    /// Hands `event` to the controller of automatic sign-in and returns its
    /// answer. Without a controller nothing happens and there is no answer.
    pub fn step_auto_login(&mut self, event: ControllerEvent) -> (action: Option<ControllerAction>)
        ensures
            action == old(self)@.answer(event),
            final(self)@ == old(self)@.stepped(event),
    {
        let mut slot: Option<AutoReauthController> = None;
        core::mem::swap(&mut slot, &mut self.auto_login);
        match slot {
            Some(mut controller) => {
                let action = controller.step(event);
                self.auto_login = Some(controller);
                Some(action)
            },
            None => None,
        }
    }

    /// Appends the line for `message` under the time `label`, and lets the
    /// oldest line go if the log is full.
    pub fn push_log(&mut self, label: &str, message: &str)
        ensures
            final(self)@ == old(self)@.logging(label@, message@),
    {
        let mut line = joined("[", label);
        line.append("] ");
        line.append(message);
        self.log_messages.push(line);
        if self.log_messages.len() > MAX_LOG_LINES {
            let _ = self.log_messages.remove(0);
        }
        assert(line_views(self.log_messages@) =~= appended(
            line_views(old(self).log_messages@),
            stamped(label@, message@),
        ));
    }

    /// Appends the line for `message` under the time it is now.
    pub fn add_log(&mut self, message: String)
        ensures
            exists|label: Seq<char>|
                is_clock(label) && final(self)@ == #[trigger] old(self)@.logging(label, message@),
    {
        let now = local_time_of_day();
        let label = clock_label(now.0, now.1, now.2);
        let ghost stamp = label@;
        proof {
            lemma_clock(now.0 as int, now.1 as int, now.2 as int);
        }
        self.push_log(label.as_str(), message.as_str());
        assert(is_clock(stamp) && self@ == old(self)@.logging(stamp, message@));
    }

    /// The text and the colour of the status line.
    pub fn get_network_status(&self) -> (status: (&'static str, StatusColor))
        ensures
            (status.0@, status.1) == self@.status(),
    {
        if self.network_monitor.is_connected() {
            ("Connected", StatusColor::Green)
        } else {
            ("Disconnected", StatusColor::Red)
        }
    }

    /// Brings the status shown up to the monitor's last verdict. While the
    /// monitor has none, nothing changes; its first verdict is taken in
    /// silence; a verdict that differs from the status shown is logged as a
    /// change. Returns the monitor's snapshot.
    pub fn update_network_status(&mut self) -> (connected: bool)
        ensures
            connected == old(self)@.monitor.is_connected(),
            !old(self)@.status_changed() ==> final(self)@ == old(self)@.with_status(
                if old(self)@.verdict() is Some {
                    old(self)@.verdict()
                } else {
                    old(self)@.last_network_status
                },
            ),
            old(self)@.status_changed() ==> exists|label: Seq<char>|
                is_clock(label) && final(self)@ == #[trigger] old(self)@.with_status(
                    Some(connected),
                ).logging(
                    label,
                    UiView::status_message(connected),
                ),
    {
        let connected = self.network_monitor.is_connected();
        if self.network_monitor.state().is_none() {
            return connected;
        }
        let changed = match self.last_network_status {
            Some(shown) => shown != connected,
            None => false,
        };
        self.last_network_status = Some(connected);
        if changed {
            let message = joined(
                "Network status changed to: ",
                if connected {
                    "Connected"
                } else {
                    "Disconnected"
                },
            );
            let ghost before = self@;
            let ghost text = message@;
            self.add_log(message);
            proof {
                let label = choose|label: Seq<char>|
                    is_clock(label) && self@ == #[trigger] before.logging(label, text);
                assert(text == UiView::status_message(connected));
                assert(before == old(self)@.with_status(Some(connected)));
                assert(self@ == old(self)@.with_status(Some(connected)).logging(
                    label,
                    UiView::status_message(connected),
                ));
            }
        }
        connected
    }

    /// Logs how saving the settings went: `failure` is what went wrong, if
    /// anything did.
    pub fn save_config(&mut self, failure: Option<&str>)
        ensures
            exists|label: Seq<char>|
                is_clock(label) && final(self)@ == #[trigger] old(self)@.logging(
                    label,
                    UiView::save_message(failure),
                ),
    {
        let message = match failure {
            Some(reason) => joined("Failed to save config: ", reason),
            None => String::from_str("Configuration saved successfully"),
        };
        let ghost text = message@;
        self.add_log(message);
        proof {
            let label = choose|label: Seq<char>|
                is_clock(label) && self@ == #[trigger] old(self)@.logging(label, text);
            assert(self@ == old(self)@.logging(label, UiView::save_message(failure)));
        }
    }

    /// Starts automatic sign-in with the settings as they are, and logs
    /// which of three things happened. Without both parts of the credentials
    /// nothing is started. Where a controller is there already it stays, so
    /// that a campaign under way is neither doubled nor lost, and is handed
    /// the settings as they are now. Else an idle controller on the standard
    /// policy is installed.
    pub fn start_auto_login(&mut self) -> (started: bool)
        ensures
            started == old(self)@.config.credentials_complete(),
            exists|label: Seq<char>|
                is_clock(label) && final(self)@ == #[trigger] old(self)@.started().logging(
                    label,
                    old(self)@.start_message(),
                ),
    {
        let complete = self.config.credentials_complete();
        let message = if !complete {
            String::from_str("Auto login failed: Username or password is empty")
        } else {
            let mut slot: Option<AutoReauthController> = None;
            core::mem::swap(&mut slot, &mut self.auto_login);
            match slot {
                Some(mut running) => {
                    running.update_settings(self.config.clone());
                    self.auto_login = Some(running);
                    String::from_str("Auto login already running")
                },
                None => {
                    self.auto_login = Some(
                        AutoReauthController::new(RetryPolicy::default(), self.config.clone()),
                    );
                    String::from_str("Auto login thread started")
                },
            }
        };
        let ghost before = self@;
        let ghost text = message@;
        assert(before == old(self)@.started());
        assert(text == old(self)@.start_message());
        self.add_log(message);
        proof {
            let label = choose|label: Seq<char>|
                is_clock(label) && self@ == #[trigger] before.logging(label, text);
            assert(self@ == old(self)@.started().logging(label, old(self)@.start_message()));
        }
        complete
    }

    /// Stops automatic sign-in: the controller goes, and with it any
    /// campaign under way. Returns whether an attempt was running, which the
    /// caller then has to tear down.
    pub fn stop_auto_login(&mut self) -> (teardown: bool)
        ensures
            final(self)@ == old(self)@.with_auto_login(None),
            teardown == (old(self)@.auto_login matches Some(running)
                && running.machine.attempt_running),
    {
        let teardown = match &self.auto_login {
            Some(running) => running.machine().attempt_running,
            None => false,
        };
        self.auto_login = None;
        teardown
    }
}

/// Starting automatic sign-in while a campaign is under way starts no second
/// one: the controller's machine and the credentials of its campaign are what
/// they were.
pub proof fn law_start_keeps_campaign(ui: UiView)
    requires
        ui.auto_login is Some,
    ensures
        ui.started().auto_login is Some,
        ui.started().auto_login->0.machine == ui.auto_login->0.machine,
        ui.started().auto_login->0.credentials == ui.auto_login->0.credentials,
        ui.started().auto_login->0.policy == ui.auto_login->0.policy,
{
}

/// The hint that goes with a failed installation: one for a failure that
/// speaks of the connection, one for a failure that speaks of rights, none
/// otherwise.
pub open spec fn hint_for(failure: Seq<char>) -> Option<Seq<char>> {
    if contains(failure, "tcp connect error"@) {
        Some(NETWORK_HINT@)
    } else if contains(failure, "permission denied"@) {
        Some(PERMISSION_HINT@)
    } else {
        None
    }
}

/// The hint that goes with a failed installation, if there is one.
pub fn install_hint(failure: &str) -> (hint: Option<&'static str>)
    ensures
        match hint {
            Some(text) => hint_for(failure@) == Some(text@),
            None => hint_for(failure@) is None,
        },
{
    if has(failure, "tcp connect error") {
        Some(NETWORK_HINT)
    } else if has(failure, "permission denied") {
        Some(PERMISSION_HINT)
    } else {
        None
    }
}

} // verus!
