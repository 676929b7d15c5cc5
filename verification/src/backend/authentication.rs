//! The browser session that signs in and out at the portal: what it is
//! started with, which page elements it works on, and how its outcome is read.
//!
//! Driving the browser is the caller's business. The library keeps track of
//! what is running, chooses the browser to start, and decides whether a
//! sign-in went through.

use vstd::prelude::*;
use crate::backend::config::Config;
use crate::backend::config::ConfigView;
use crate::backend::controller::AttemptOutcome;
use crate::backend::controller::FailureReason;
use crate::backend::text::joined;

verus! {

/// Port that the driver listens on.
pub const CHROMEDRIVER_PORT: u16 = 9515;

/// Argument that tells the driver its port.
pub const CHROMEDRIVER_PORT_ARG: &'static str = "--port=9515";

/// Address of the driver.
pub const CHROMEDRIVER_URL: &'static str = "http://localhost:9515";

/// Seconds given to the driver to come up.
pub const CHROMEDRIVER_STARTUP_SECS: u64 = 2;

/// Seconds after which loading a page is given up.
pub const PAGE_LOAD_TIMEOUT_SECS: u64 = 30;

/// Seconds after which a script is given up.
pub const SCRIPT_TIMEOUT_SECS: u64 = 30;

/// Seconds for which an element is waited for implicitly.
pub const IMPLICIT_WAIT_SECS: u64 = 10;

/// Seconds for which an element of the form is looked for.
pub const ELEMENT_WAIT_SECS: u64 = 10;

/// Milliseconds between two looks for an element.
pub const ELEMENT_POLL_MS: u64 = 500;

/// Seconds to let a page settle after it was opened or submitted.
pub const PAGE_SETTLE_SECS: u64 = 3;

/// Seconds to let the confirmation of a sign-out appear.
pub const CONFIRM_SETTLE_SECS: u64 = 2;

/// Times the sign-out is gone through unless configured otherwise; the portal
/// at hand needs it twice.
pub const LOGOUT_ROUNDS: u32 = 2;

/// Where the user name goes.
pub const USERNAME_SELECTOR: &'static str =
    "#login-box > div > div.mt_body > div:nth-child(1) > div > form > input:nth-child(2)";

/// Where the password goes.
pub const PASSWORD_SELECTOR: &'static str =
    "#login-box > div > div.mt_body > div:nth-child(1) > div > form > input:nth-child(3)";

/// The list of carriers.
pub const ISP_SELECT_XPATH: &'static str = "//*[@id='login-box']/div/div[3]/div[1]/div/select";

/// The button that submits the form.
pub const LOGIN_BUTTON_SELECTOR: &'static str =
    "#login-box > div > div.mt_body > div:nth-child(1) > div > form > input.edit_lobo_cell.sms_login";

/// What the path to a carrier's entry in the list starts with.
pub const ISP_OPTION_XPATH_HEAD: &'static str =
    "//*[@id='login-box']/div/div[3]/div[1]/div/select/option[@value='";

/// What the path to a carrier's entry in the list ends in.
pub const ISP_OPTION_XPATH_TAIL: &'static str = "']";

/// Why the session could not do what was asked.
#[derive(Clone, Copy, Debug, PartialEq, Eq, Structural)]
pub enum AuthenticatorError {
    /// The driver is not where it should be.
    ChromeDriverNotFound,
    /// The driver could not be started.
    ChromeDriverStartFailed,
    /// No browser was found to start.
    ChromeNotFound,
    /// The driver did not give a session.
    WebDriverFailed,
    /// Nothing was started yet.
    NotInitialized,
    /// The browser still shows the sign-in page.
    StillOnLoginPage,
}

/// What a look at the driver's process found.
#[derive(Clone, Copy, Debug, PartialEq, Eq, Structural)]
pub enum ProcessState {
    /// No process was ever started.
    Absent,
    /// The process has exited.
    Exited,
    /// The process is running.
    Running,
    /// The process could not be asked.
    Unknown,
}

/// How far bringing the session up got.
#[derive(Clone, Copy, Debug, PartialEq, Eq, Structural)]
pub enum InitOutcome {
    /// The driver is not where it should be.
    DriverMissing,
    /// The driver could not be started.
    StartFailed,
    /// No browser was found to start.
    BrowserMissing,
    /// The driver did not give a session.
    SessionFailed,
    /// The session is up.
    Ready,
}

/// What a session is in contracts.
pub struct AuthenticatorView {
    pub config: ConfigView,
    /// The browser session is up.
    pub driver_ready: bool,
    /// The driver's process is held.
    pub process_held: bool,
    /// Times the sign-out is gone through.
    pub logout_rounds: u32,
}

impl AuthenticatorView {
    /// The session after bringing it up got as far as `outcome`: up when all
    /// went well; without the driver's process when the driver gave no
    /// session or found no browser; as before otherwise.
    pub open spec fn after_init(self, outcome: InitOutcome) -> AuthenticatorView {
        match outcome {
            InitOutcome::Ready => AuthenticatorView {
                driver_ready: true,
                process_held: true,
                ..self
            },
            InitOutcome::SessionFailed | InitOutcome::BrowserMissing => AuthenticatorView {
                process_held: false,
                ..self
            },
            InitOutcome::StartFailed => AuthenticatorView { process_held: false, ..self },
            InitOutcome::DriverMissing => self,
        }
    }

    /// The session with nothing running.
    pub open spec fn stopped(self) -> AuthenticatorView {
        AuthenticatorView { driver_ready: false, process_held: false, ..self }
    }
}

impl InitOutcome {
    /// The error that goes with this outcome, if it is one.
    pub open spec fn error(self) -> Option<AuthenticatorError> {
        match self {
            InitOutcome::DriverMissing => Some(AuthenticatorError::ChromeDriverNotFound),
            InitOutcome::StartFailed => Some(AuthenticatorError::ChromeDriverStartFailed),
            InitOutcome::BrowserMissing => Some(AuthenticatorError::ChromeNotFound),
            InitOutcome::SessionFailed => Some(AuthenticatorError::WebDriverFailed),
            InitOutcome::Ready => None,
        }
    }
}

/// The position of the first `true` in `found`.
pub open spec fn first_found(found: Seq<bool>, at: int) -> bool {
    &&& 0 <= at < found.len()
    &&& found[at]
    &&& forall|i: int| 0 <= i < at ==> !found[i]
}

/// The browser session of one sign-in or sign-out.
pub struct Authenticator {
    config: Config,
    driver_ready: bool,
    process_held: bool,
    logout_rounds: u32,
}

impl View for Authenticator {
    type V = AuthenticatorView;

    closed spec fn view(&self) -> AuthenticatorView {
        AuthenticatorView {
            config: self.config@,
            driver_ready: self.driver_ready,
            process_held: self.process_held,
            logout_rounds: self.logout_rounds,
        }
    }
}

impl Authenticator {
    /// A session for `config` with nothing running, which goes through the
    /// sign-out [`LOGOUT_ROUNDS`] times.
    pub fn new(config: Config) -> (authenticator: Authenticator)
        ensures
            authenticator@ == (AuthenticatorView {
                config: config@,
                driver_ready: false,
                process_held: false,
                logout_rounds: LOGOUT_ROUNDS,
            }),
    {
        Authenticator {
            config,
            driver_ready: false,
            process_held: false,
            logout_rounds: LOGOUT_ROUNDS,
        }
    }

    /// The same session, going through the sign-out `rounds` times.
    pub fn with_logout_rounds(self, rounds: u32) -> (authenticator: Authenticator)
        ensures
            authenticator@ == (AuthenticatorView { logout_rounds: rounds, ..self@ }),
    {
        Authenticator {
            config: self.config,
            driver_ready: self.driver_ready,
            process_held: self.process_held,
            logout_rounds: rounds,
        }
    }

    /// The settings that the session signs in with.
    pub fn config(&self) -> (config: &Config)
        ensures
            config@ == self@.config,
    {
        &self.config
    }

    /// True while the browser session is up.
    pub fn driver_ready(&self) -> (ready: bool)
        ensures
            ready == self@.driver_ready,
    {
        self.driver_ready
    }

    /// True while the driver's process is held.
    pub fn process_held(&self) -> (held: bool)
        ensures
            held == self@.process_held,
    {
        self.process_held
    }

    /// Whether the driver has to be started, given what a look at its process
    /// found: a process that runs is kept, anything else is let go and
    /// replaced.
    pub fn start_chromedriver(&mut self, process: ProcessState) -> (spawn: bool)
        ensures
            spawn == (process != ProcessState::Running),
            final(self)@ == (AuthenticatorView {
                process_held: process == ProcessState::Running,
                ..old(self)@
            }),
    {
        match process {
            ProcessState::Running => {
                self.process_held = true;
                false
            },
            _ => {
                self.process_held = false;
                true
            },
        }
    }

    /// The arguments that the browser is started with, in order.
    pub fn chrome_arguments() -> (arguments: Vec<&'static str>)
        ensures
            arguments@.len() == 7,
            arguments@[0]@ == "--no-sandbox"@,
            arguments@[1]@ == "--disable-dev-shm-usage"@,
            arguments@[2]@ == "--ignore-certificate-errors"@,
            arguments@[3]@ == "--start-maximized"@,
            arguments@[4]@ == "--disable-extensions"@,
            arguments@[5]@ == "--disable-popup-blocking"@,
            arguments@[6]@ == "--disable-infobars"@,
    {
        let mut arguments: Vec<&'static str> = Vec::new();
        arguments.push("--no-sandbox");
        arguments.push("--disable-dev-shm-usage");
        arguments.push("--ignore-certificate-errors");
        arguments.push("--start-maximized");
        arguments.push("--disable-extensions");
        arguments.push("--disable-popup-blocking");
        arguments.push("--disable-infobars");
        arguments
    }

    /// The places where a browser is looked for, in order of preference.
    pub fn chrome_paths() -> (paths: Vec<&'static str>)
        ensures
            paths@.len() == 4,
            paths@[0]@ == "C:\\Program Files\\Google\\Chrome\\Application\\chrome.exe"@,
            paths@[1]@ == "C:\\Program Files (x86)\\Google\\Chrome\\Application\\chrome.exe"@,
            paths@[2]@ == "./chrome-win32/chrome.exe"@,
            paths@[3]@ == "./chrome-win64/chrome.exe"@,
    {
        let mut paths: Vec<&'static str> = Vec::new();
        paths.push("C:\\Program Files\\Google\\Chrome\\Application\\chrome.exe");
        paths.push("C:\\Program Files (x86)\\Google\\Chrome\\Application\\chrome.exe");
        paths.push("./chrome-win32/chrome.exe");
        paths.push("./chrome-win64/chrome.exe");
        paths
    }

    /// The browser to start, given which of the places hold one: the first
    /// that does. Fails exactly when none does.
    pub fn create_webdriver(found: &Vec<bool>) -> (chosen: Result<usize, AuthenticatorError>)
        ensures
            match chosen {
                Ok(at) => first_found(found@, at as int),
                Err(error) => error == AuthenticatorError::ChromeNotFound && forall|i: int|
                    0 <= i < found@.len() ==> !found@[i],
            },
    {
        let mut at: usize = 0;
        while at < found.len()
            invariant
                at <= found@.len(),
                forall|i: int| 0 <= i < at ==> !found@[i],
            decreases found@.len() - at,
        {
            if found[at] {
                return Ok(at);
            }
            at = at + 1;
        }
        Err(AuthenticatorError::ChromeNotFound)
    }

    /// Takes how far bringing the session up got.
    pub fn init(&mut self, outcome: InitOutcome) -> (result: Result<(), AuthenticatorError>)
        ensures
            final(self)@ == old(self)@.after_init(outcome),
            match result {
                Ok(()) => outcome.error() is None,
                Err(error) => outcome.error() == Some(error),
            },
    {
        match outcome {
            InitOutcome::Ready => {
                self.driver_ready = true;
                self.process_held = true;
                Ok(())
            },
            InitOutcome::SessionFailed => {
                self.process_held = false;
                Err(AuthenticatorError::WebDriverFailed)
            },
            InitOutcome::BrowserMissing => {
                self.process_held = false;
                Err(AuthenticatorError::ChromeNotFound)
            },
            InitOutcome::StartFailed => {
                self.process_held = false;
                Err(AuthenticatorError::ChromeDriverStartFailed)
            },
            InitOutcome::DriverMissing => Err(AuthenticatorError::ChromeDriverNotFound),
        }
    }

    /// The address to open, once the session is up.
    pub fn open_auth_page(&self) -> (page: Result<&str, AuthenticatorError>)
        ensures
            match page {
                Ok(url) => self@.driver_ready && url@ == self@.config.auth_url,
                Err(error) => !self@.driver_ready && error == AuthenticatorError::NotInitialized,
            },
    {
        if self.driver_ready {
            Ok(self.config.auth_url.as_str())
        } else {
            Err(AuthenticatorError::NotInitialized)
        }
    }

    /// The path to the entry of the settings' carrier in the list of carriers.
    pub fn option_xpath(&self) -> (path: String)
        ensures
            path@ == ISP_OPTION_XPATH_HEAD@ + self@.config.isp.option_text()
                + ISP_OPTION_XPATH_TAIL@,
    {
        let mut path = joined(ISP_OPTION_XPATH_HEAD, self.config.isp.option_value());
        path.append(ISP_OPTION_XPATH_TAIL);
        path
    }

    /// What a sign-in comes to, given the address that the browser shows after
    /// the form was submitted, if it could be read.
    pub open spec fn login_result(
        view: AuthenticatorView,
        current_url: Option<&str>,
    ) -> Result<(), AuthenticatorError> {
        if !view.driver_ready {
            Err(AuthenticatorError::NotInitialized)
        } else if current_url matches Some(url) && url@ == view.config.auth_url {
            Err(AuthenticatorError::StillOnLoginPage)
        } else {
            Ok(())
        }
    }

    /// Whether the sign-in went through, given the address that the browser
    /// shows after the form was submitted, if it could be read. Without a
    /// session there is no sign-in; with one, the sign-in failed exactly when
    /// the browser still shows the portal's address.
    pub fn login(&self, current_url: Option<&str>) -> (result: Result<(), AuthenticatorError>)
        ensures
            result == Self::login_result(self@, current_url),
    {
        if !self.driver_ready {
            return Err(AuthenticatorError::NotInitialized);
        }
        match current_url {
            Some(url) => {
                let same = String::from_str(url) == self.config.auth_url;
                if same {
                    Err(AuthenticatorError::StillOnLoginPage)
                } else {
                    Ok(())
                }
            },
            None => Ok(()),
        }
    }

    /// Times the sign-out is gone through, once the session is up.
    pub open spec fn logout_result(view: AuthenticatorView) -> Result<u32, AuthenticatorError> {
        if view.driver_ready {
            Ok(view.logout_rounds)
        } else {
            Err(AuthenticatorError::NotInitialized)
        }
    }

    /// Times the sign-out is gone through. Without a session there is no
    /// sign-out.
    pub fn logout(&self) -> (rounds: Result<u32, AuthenticatorError>)
        ensures
            rounds == Self::logout_result(self@),
    {
        if self.driver_ready {
            Ok(self.logout_rounds)
        } else {
            Err(AuthenticatorError::NotInitialized)
        }
    }

    /// Lets go of the browser session and of the driver's process. Returns
    /// what there was to let go of: the session, and the process.
    pub fn quit(&mut self) -> (held: (bool, bool))
        ensures
            held == (old(self)@.driver_ready, old(self)@.process_held),
            final(self)@ == old(self)@.stopped(),
    {
        let held = (self.driver_ready, self.process_held);
        self.driver_ready = false;
        self.process_held = false;
        held
    }
}

/// How a login attempt ended, given the settings it ran on, how bringing the
/// session up went, and how the sign-in went if it was made. Settings without
/// credentials or without a portal address cannot work, whatever else
/// happened; a session that did not come up, or a sign-in that was never made,
/// is a failure of the resource; a sign-in that failed is one of the executor.
pub open spec fn attempt_outcome(
    config: ConfigView,
    init: Result<(), AuthenticatorError>,
    login: Option<Result<(), AuthenticatorError>>,
) -> AttemptOutcome {
    if !config.credentials_complete() || config.auth_url.len() == 0 {
        AttemptOutcome::Failure(FailureReason::Configuration)
    } else if init is Err {
        AttemptOutcome::Failure(FailureReason::Resource)
    } else {
        match login {
            Some(Ok(())) => AttemptOutcome::Success,
            Some(Err(_)) => AttemptOutcome::Failure(FailureReason::Executor),
            None => AttemptOutcome::Failure(FailureReason::Resource),
        }
    }
}

/// How a login attempt ended.
pub fn classify_attempt(
    config: &Config,
    init: Result<(), AuthenticatorError>,
    login: Option<Result<(), AuthenticatorError>>,
) -> (outcome: AttemptOutcome)
    ensures
        outcome == attempt_outcome(config@, init, login),
{
    if !config.credentials_complete() || config.auth_url.as_str().is_empty() {
        AttemptOutcome::Failure(FailureReason::Configuration)
    } else if init.is_err() {
        AttemptOutcome::Failure(FailureReason::Resource)
    } else {
        match login {
            Some(Ok(())) => AttemptOutcome::Success,
            Some(Err(_)) => AttemptOutcome::Failure(FailureReason::Executor),
            None => AttemptOutcome::Failure(FailureReason::Resource),
        }
    }
}

} // verus!
