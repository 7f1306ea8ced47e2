//! The credentials a feed client runs with.
//!
//! Each credential comes from a variable of the environment that must be set
//! and must not be empty. Reading the environment is the caller's part; what
//! is decided here is whether what was found makes a configuration, and if
//! not, which variable is at fault.

use vstd::prelude::*;
use vstd::string::*;

verus! {

/// The variable that holds the session cookie.
pub const SESSION_VAR: &'static str = "CSGOROLL_SESSION";

/// The variable that holds the clearance cookie.
pub const CLEARANCE_VAR: &'static str = "CF_CLEARANCE";

/// The variable that holds the key of the captcha solver.
pub const CAPSOLVER_VAR: &'static str = "CAPSOLVER_API_KEY";

/// The variable that holds the authentication token.
pub const TOKEN_VAR: &'static str = "CSGOROLL_API_TOKEN";

/// The mathematical value of a [`ConfigError`].
pub enum ConfigErrorView {
    Missing { name: Seq<char> },
    Empty { name: Seq<char> },
}

/// Why a configuration could not be put together.
#[derive(Clone, Debug, PartialEq, Eq)]
pub enum ConfigError {
    /// The named variable is not set.
    Missing { name: String },
    /// The named variable is set to the empty string.
    Empty { name: String },
}

impl View for ConfigError {
    type V = ConfigErrorView;

    open spec fn view(&self) -> ConfigErrorView {
        match self {
            ConfigError::Missing { name } => ConfigErrorView::Missing { name: name@ },
            ConfigError::Empty { name } => ConfigErrorView::Empty { name: name@ },
        }
    }
}

/// The mathematical value of a [`Config`].
pub struct ConfigView {
    pub csgoroll_session: Seq<char>,
    pub cf_clearance: Seq<char>,
    pub capsolver_api_key: Seq<char>,
    pub csgoroll_api_token: Seq<char>,
}

/// The credentials of one feed client.
#[derive(Clone, Debug, PartialEq, Eq)]
pub struct Config {
    /// The session cookie, as it goes into the `Cookie` header of the
    /// upgrade request.
    pub csgoroll_session: String,
    pub cf_clearance: String,
    pub capsolver_api_key: String,
    /// The token that `connection_init` carries.
    pub csgoroll_api_token: String,
}

impl View for Config {
    type V = ConfigView;

    open spec fn view(&self) -> ConfigView {
        ConfigView {
            csgoroll_session: self.csgoroll_session@,
            cf_clearance: self.cf_clearance@,
            capsolver_api_key: self.capsolver_api_key@,
            csgoroll_api_token: self.csgoroll_api_token@,
        }
    }
}

/// What the variable `name` is worth, given what was found under it: its
/// value if it is set and not empty.
pub open spec fn required(name: Seq<char>, found: Option<Seq<char>>) -> Result<
    Seq<char>,
    ConfigErrorView,
> {
    match found {
        None => Err(ConfigErrorView::Missing { name }),
        Some(value) => if value.len() == 0 {
            Err(ConfigErrorView::Empty { name })
        } else {
            Ok(value)
        },
    }
}

/// The configuration that the four variables make, or the fault of the
/// first of them that has one.
pub open spec fn config_of(
    session: Option<Seq<char>>,
    clearance: Option<Seq<char>>,
    capsolver: Option<Seq<char>>,
    token: Option<Seq<char>>,
) -> Result<ConfigView, ConfigErrorView> {
    match required(SESSION_VAR@, session) {
        Err(e) => Err(e),
        Ok(csgoroll_session) => match required(CLEARANCE_VAR@, clearance) {
            Err(e) => Err(e),
            Ok(cf_clearance) => match required(CAPSOLVER_VAR@, capsolver) {
                Err(e) => Err(e),
                Ok(capsolver_api_key) => match required(TOKEN_VAR@, token) {
                    Err(e) => Err(e),
                    Ok(csgoroll_api_token) => Ok(
                        ConfigView {
                            csgoroll_session,
                            cf_clearance,
                            capsolver_api_key,
                            csgoroll_api_token,
                        },
                    ),
                },
            },
        },
    }
}

/// The value of a text that may be absent.
pub open spec fn optional_text(text: Option<String>) -> Option<Seq<char>> {
    match text {
        Some(s) => Some(s@),
        None => None,
    }
}

/// The value of the outcome of [`Config::require_var`].
pub open spec fn required_view(outcome: Result<String, ConfigError>) -> Result<
    Seq<char>,
    ConfigErrorView,
> {
    match outcome {
        Ok(value) => Ok(value@),
        Err(e) => Err(e@),
    }
}

/// The value of the outcome of [`Config::from_vars`].
pub open spec fn config_view(outcome: Result<Config, ConfigError>) -> Result<
    ConfigView,
    ConfigErrorView,
> {
    match outcome {
        Ok(config) => Ok(config@),
        Err(e) => Err(e@),
    }
}

impl Config {
    /// Checks what was found under the variable `name`: a value that is set
    /// and not empty is handed on, anything else is a fault of `name`.
    pub fn require_var(name: &str, found: Option<String>) -> (outcome: Result<String, ConfigError>)
        ensures
            required_view(outcome) == required(name@, optional_text(found)),
    {
        match found {
            None => Err(ConfigError::Missing { name: String::from_str(name) }),
            Some(value) => if value.as_str().is_empty() {
                Err(ConfigError::Empty { name: String::from_str(name) })
            } else {
                Ok(value)
            },
        }
    }

    /// Puts a configuration together from what was found under the four
    /// variables. They are checked in the order of the parameters, and the
    /// first fault is the one reported.
    pub fn from_vars(
        session: Option<String>,
        clearance: Option<String>,
        capsolver: Option<String>,
        token: Option<String>,
    ) -> (outcome: Result<Config, ConfigError>)
        ensures
            config_view(outcome) == config_of(
                optional_text(session),
                optional_text(clearance),
                optional_text(capsolver),
                optional_text(token),
            ),
    {
        let csgoroll_session = match Config::require_var(SESSION_VAR, session) {
            Ok(value) => value,
            Err(e) => { return Err(e); },
        };
        let cf_clearance = match Config::require_var(CLEARANCE_VAR, clearance) {
            Ok(value) => value,
            Err(e) => { return Err(e); },
        };
        let capsolver_api_key = match Config::require_var(CAPSOLVER_VAR, capsolver) {
            Ok(value) => value,
            Err(e) => { return Err(e); },
        };
        let csgoroll_api_token = match Config::require_var(TOKEN_VAR, token) {
            Ok(value) => value,
            Err(e) => { return Err(e); },
        };
        Ok(Config { csgoroll_session, cf_clearance, capsolver_api_key, csgoroll_api_token })
    }

    /// The value of a `Cookie` header that carries both cookies.
    pub fn cookie_header(&self) -> (header: String)
        ensures
            header@ == "session="@ + self@.csgoroll_session + "; cf_clearance="@
                + self@.cf_clearance,
    {
        let mut header = String::from_str("session=");
        header.append(self.csgoroll_session.as_str());
        header.append("; cf_clearance=");
        header.append(self.cf_clearance.as_str());
        header
    }
}

} // verus!
