//! The settings that persist between runs, and the rules applied to them when
//! they are stored and when they are read back.

use vstd::prelude::*;

verus! {

/// Portal address used when none is configured.
pub const DEFAULT_AUTH_URL: &'static str = "http://10.1.1.1";

/// Directory of the settings file, relative to the working directory.
pub const CONFIG_DIR: &'static str = "config";

/// Name of the settings file.
pub const CONFIG_FILE: &'static str = "config.json";

/// Carrier selected on the portal's sign-in form.
#[derive(Clone, Copy, Debug, PartialEq, Eq, Structural)]
pub enum ISP {
    Mobile,
    Unicom,
    Telecom,
    School,
}

impl Default for ISP {
    fn default() -> (isp: ISP)
        ensures
            isp == ISP::School,
    {
        ISP::School
    }
}

impl ISP {
    /// The name shown for this carrier.
    pub open spec fn label_text(self) -> Seq<char> {
        match self {
            ISP::Mobile => "Mobile"@,
            ISP::Unicom => "Unicom"@,
            ISP::Telecom => "Telecom"@,
            ISP::School => "School"@,
        }
    }

    /// The name shown for this carrier.
    pub fn label(&self) -> (text: &'static str)
        ensures
            text@ == self.label_text(),
    {
        match self {
            ISP::Mobile => "Mobile",
            ISP::Unicom => "Unicom",
            ISP::Telecom => "Telecom",
            ISP::School => "School",
        }
    }

    /// The value of this carrier's entry in the sign-in form's list.
    pub open spec fn option_text(self) -> Seq<char> {
        match self {
            ISP::Mobile => "@cmccn"@,
            ISP::Unicom => "@unicomn"@,
            ISP::Telecom => "@telecomn"@,
            ISP::School => ""@,
        }
    }

    /// The value of this carrier's entry in the sign-in form's list.
    pub fn option_value(&self) -> (text: &'static str)
        ensures
            text@ == self.option_text(),
    {
        match self {
            ISP::Mobile => "@cmccn",
            ISP::Unicom => "@unicomn",
            ISP::Telecom => "@telecomn",
            ISP::School => "",
        }
    }
}

/// The persisted settings.
#[derive(Debug)]
pub struct Config {
    pub username: String,
    pub password: String,
    pub remember_password: bool,
    pub auto_login: bool,
    pub auth_url: String,
    pub isp: ISP,
}

/// What the settings are in contracts.
pub struct ConfigView {
    pub username: Seq<char>,
    pub password: Seq<char>,
    pub remember_password: bool,
    pub auto_login: bool,
    pub auth_url: Seq<char>,
    pub isp: ISP,
}

impl View for Config {
    type V = ConfigView;

    open spec fn view(&self) -> ConfigView {
        ConfigView {
            username: self.username@,
            password: self.password@,
            remember_password: self.remember_password,
            auto_login: self.auto_login,
            auth_url: self.auth_url@,
            isp: self.isp,
        }
    }
}

impl ConfigView {
    /// Settings with nothing filled in.
    pub open spec fn blank() -> ConfigView {
        ConfigView {
            username: Seq::empty(),
            password: Seq::empty(),
            remember_password: false,
            auto_login: false,
            auth_url: Seq::empty(),
            isp: ISP::School,
        }
    }

    /// The settings used when no file was found: blank, with the default
    /// portal address.
    pub open spec fn fallback() -> ConfigView {
        ConfigView { auth_url: DEFAULT_AUTH_URL@, ..Self::blank() }
    }

    /// Without consent to remember it the password is dropped, and automatic
    /// sign-in, which needs it, is switched off.
    pub open spec fn forgetful(self) -> ConfigView {
        if self.remember_password {
            self
        } else {
            ConfigView { password: Seq::empty(), auto_login: false, ..self }
        }
    }

    /// What is written when these settings are saved.
    pub open spec fn saved(self) -> ConfigView {
        self.forgetful()
    }

    /// What stored settings become when they are read back: an empty portal
    /// address is replaced by the default one, and a password stored without
    /// consent is dropped.
    pub open spec fn loaded(self) -> ConfigView {
        let addressed = if self.auth_url.len() == 0 {
            ConfigView { auth_url: DEFAULT_AUTH_URL@, ..self }
        } else {
            self
        };
        addressed.forgetful()
    }

    /// Both parts of the credentials are filled in.
    pub open spec fn credentials_complete(self) -> bool {
        self.username.len() > 0 && self.password.len() > 0
    }

    /// Automatic sign-in is wanted and has what it needs.
    pub open spec fn auto_login_ready(self) -> bool {
        self.auto_login && self.credentials_complete()
    }

    /// The settings after the "remember password" box was set to `on`:
    /// automatic sign-in cannot outlive the consent.
    pub open spec fn with_remember_password(self, on: bool) -> ConfigView {
        ConfigView {
            remember_password: on,
            auto_login: self.auto_login && on,
            ..self
        }
    }

    /// The settings after the "auto login" box was set to `on`: switching it
    /// on gives the consent that it needs.
    pub open spec fn with_auto_login(self, on: bool) -> ConfigView {
        ConfigView {
            auto_login: on,
            remember_password: self.remember_password || on,
            ..self
        }
    }
}

impl Default for Config {
    fn default() -> (config: Config)
        ensures
            config@ == ConfigView::blank(),
    {
        Config {
            username: String::new(),
            password: String::new(),
            remember_password: false,
            auto_login: false,
            auth_url: String::new(),
            isp: ISP::School,
        }
    }
}

impl Clone for Config {
    fn clone(&self) -> (config: Config)
        ensures
            config@ == self@,
    {
        Config {
            username: self.username.clone(),
            password: self.password.clone(),
            remember_password: self.remember_password,
            auto_login: self.auto_login,
            auth_url: self.auth_url.clone(),
            isp: self.isp,
        }
    }
}

impl Config {
    /// Where the settings file lives: the file name under the directory.
    pub fn get_config_path() -> (path: String)
        ensures
            path@ == CONFIG_DIR@ + "/"@ + CONFIG_FILE@,
    {
        let mut path = String::from_str(CONFIG_DIR);
        path.append("/");
        path.append(CONFIG_FILE);
        path
    }

    /// The settings used when no file was found.
    pub fn fallback() -> (config: Config)
        ensures
            config@ == ConfigView::fallback(),
    {
        Config {
            username: String::new(),
            password: String::new(),
            remember_password: false,
            auto_login: false,
            auth_url: String::from_str(DEFAULT_AUTH_URL),
            isp: ISP::School,
        }
    }

    /// The settings to work with, given what the settings file held: `None`
    /// when there was no file.
    pub fn load(stored: Option<Config>) -> (config: Config)
        ensures
            config@ == match stored {
                Some(found) => found@.loaded(),
                None => ConfigView::fallback(),
            },
    {
        match stored {
            Some(found) => {
                let mut config = found;
                if config.auth_url.as_str().is_empty() {
                    config.auth_url = String::from_str(DEFAULT_AUTH_URL);
                }
                if !config.remember_password {
                    config.password = String::new();
                    config.auto_login = false;
                }
                config
            },
            None => Config::fallback(),
        }
    }

    /// The settings to write to the settings file.
    pub fn save(&self) -> (stored: Config)
        ensures
            stored@ == self@.saved(),
    {
        let mut stored = self.clone();
        if !self.remember_password {
            stored.password = String::new();
            stored.auto_login = false;
        }
        stored
    }

    /// True when both the user name and the password are filled in.
    pub fn credentials_complete(&self) -> (complete: bool)
        ensures
            complete == self@.credentials_complete(),
    {
        !self.username.as_str().is_empty() && !self.password.as_str().is_empty()
    }

    /// True when automatic sign-in is switched on and the credentials are
    /// filled in.
    pub fn auto_login_ready(&self) -> (ready: bool)
        ensures
            ready == self@.auto_login_ready(),
    {
        self.auto_login && self.credentials_complete()
    }

    /// Sets the "remember password" box.
    pub fn set_remember_password(&mut self, on: bool)
        ensures
            final(self)@ == old(self)@.with_remember_password(on),
    {
        self.remember_password = on;
        if !on {
            self.auto_login = false;
        }
    }

    /// Sets the "auto login" box.
    pub fn set_auto_login(&mut self, on: bool)
        ensures
            final(self)@ == old(self)@.with_auto_login(on),
    {
        self.auto_login = on;
        if on {
            self.remember_password = true;
        }
    }
}

} // verus!
