//! The settings of the program, read from the variables of its environment.

use vstd::prelude::*;
use super::text::join3;

verus! {

pub type AuthKey = String;

pub type Port = u16;

pub type Address = String;

pub type RequestInterval = u8;

pub type ScriptDelay = u8;

/// The settings: the daemon's key, port and address, the seconds between
/// two requests, and the seconds before a script is started.
#[derive(Debug, Clone, PartialEq, Eq)]
pub struct Configs {
    pub auth_key: AuthKey,
    pub port: Port,
    pub address: Address,
    pub request_interval: RequestInterval,
    pub script_delay: ScriptDelay,
}

/// Why there are no settings. Each variant holds the text that
/// [`ConfigError::message`] puts after its own words.
#[derive(Debug, Clone, PartialEq, Eq)]
pub enum ConfigError {
    /// A variable that must be set is not.
    MissingError(String),
    /// A variable was read as a setting of another kind.
    ParseError(String),
    /// The name is that of no setting.
    StrumParseError(String),
    /// The value of a variable is no number, or one that is too large.
    ParseIntError(String),
}

/// A kind of value that a setting can have.
pub trait ConfigValue {}

/// One setting, under the name of its variable.
#[derive(Debug, Clone, PartialEq, Eq)]
pub enum ConfigValues {
    /// `AUTH_KEY`
    AuthKey(AuthKey),
    /// `PORT`
    Port(Port),
    /// `ADDRESS`
    Address(Address),
    /// `REQUEST_INTERVAL`
    RequestInterval(RequestInterval),
    /// `SCRIPT_DELAY`
    ScriptDelay(ScriptDelay),
}

/// The five settings, without their values.
#[derive(Debug, Clone, Copy, PartialEq, Eq)]
pub enum Setting {
    AuthKey,
    Port,
    Address,
    RequestInterval,
    ScriptDelay,
}

/// The setting of a variable's name.
pub open spec fn setting_named(name: Seq<char>) -> Option<Setting> {
    if name == "AUTH_KEY"@ {
        Some(Setting::AuthKey)
    } else if name == "PORT"@ {
        Some(Setting::Port)
    } else if name == "ADDRESS"@ {
        Some(Setting::Address)
    } else if name == "REQUEST_INTERVAL"@ {
        Some(Setting::RequestInterval)
    } else if name == "SCRIPT_DELAY"@ {
        Some(Setting::ScriptDelay)
    } else {
        None
    }
}

/// What is said of a name that is the name of no setting.
pub open spec fn no_variant() -> Seq<char> {
    "Matching variant not found"@
}

/// Every character is a decimal digit, and there is at least one.
pub open spec fn digits(s: Seq<char>) -> bool {
    s.len() > 0 && forall|i: int| 0 <= i < s.len() ==> '0' <= #[trigger] s[i] <= '9'
}

/// The number that a row of decimal digits stands for.
pub open spec fn digits_value(s: Seq<char>) -> nat
    decreases s.len(),
{
    if s.len() == 0 {
        0
    } else {
        digits_value(s.drop_last()) * 10 + (s.last() as nat - '0' as nat) as nat
    }
}

/// The number that a text stands for: decimal digits, with or without a
/// `+` before them.
pub open spec fn numeral(s: Seq<char>) -> Option<nat> {
    let d = if s.len() > 0 && s[0] == '+' {
        s.drop_first()
    } else {
        s
    };
    if digits(d) {
        Some(digits_value(d))
    } else {
        None
    }
}

/// What `str::parse::<u16>` says of a text that it does not take: the
/// words of its error.
pub uninterp spec fn u16_refusal(text: Seq<char>) -> Seq<char>;

/// What `str::parse::<u8>` says of a text that it does not take: the words
/// of its error.
pub uninterp spec fn u8_refusal(text: Seq<char>) -> Seq<char>;

/// `str::parse::<u16>`: the number that the text stands for, where it is
/// decimal digits, with or without a `+` before them, and the number is at
/// most 65535; else an error, of which the words are kept.
#[verifier::external_body]
fn parse_u16(text: &str) -> (r: Result<u16, String>)
    ensures
        match r {
            Ok(n) => numeral(text@) == Some(n as nat),
            Err(e) => !(numeral(text@) matches Some(v) && v <= 0xffff) && e@ == u16_refusal(
                text@,
            ),
        },
{
    text.parse::<u16>().map_err(|e| e.to_string())
}

/// `str::parse::<u8>`: the number that the text stands for, where it is
/// decimal digits, with or without a `+` before them, and the number is at
/// most 255; else an error, of which the words are kept.
#[verifier::external_body]
fn parse_u8(text: &str) -> (r: Result<u8, String>)
    ensures
        match r {
            Ok(n) => numeral(text@) == Some(n as nat),
            Err(e) => !(numeral(text@) matches Some(v) && v <= 0xff) && e@ == u8_refusal(text@),
        },
{
    text.parse::<u8>().map_err(|e| e.to_string())
}

/// The variables of an environment, as the contracts see them.
pub open spec fn variables(env: Seq<(String, String)>) -> Seq<(Seq<char>, Seq<char>)> {
    Seq::new(env.len(), |i: int| (env[i].0@, env[i].1@))
}

/// The value of a variable: that of the first pair of its name.
pub open spec fn value_of(env: Seq<(Seq<char>, Seq<char>)>, name: Seq<char>) -> Option<Seq<char>>
    decreases env.len(),
{
    if env.len() == 0 {
        None
    } else if env[0].0 == name {
        Some(env[0].1)
    } else {
        value_of(env.drop_first(), name)
    }
}

/// A setting with its value, as the contracts see it.
pub enum SettingValue {
    AuthKey(Seq<char>),
    Port(u16),
    Address(Seq<char>),
    RequestInterval(u8),
    ScriptDelay(u8),
}

impl View for ConfigValues {
    type V = SettingValue;

    open spec fn view(&self) -> SettingValue {
        match self {
            ConfigValues::AuthKey(s) => SettingValue::AuthKey(s@),
            ConfigValues::Port(n) => SettingValue::Port(*n),
            ConfigValues::Address(s) => SettingValue::Address(s@),
            ConfigValues::RequestInterval(n) => SettingValue::RequestInterval(*n),
            ConfigValues::ScriptDelay(n) => SettingValue::ScriptDelay(*n),
        }
    }
}

/// An error, as the contracts see it.
pub enum ConfigFault {
    Missing(Seq<char>),
    Parse(Seq<char>),
    Strum(Seq<char>),
    ParseInt(Seq<char>),
}

impl View for ConfigError {
    type V = ConfigFault;

    open spec fn view(&self) -> ConfigFault {
        match self {
            ConfigError::MissingError(s) => ConfigFault::Missing(s@),
            ConfigError::ParseError(s) => ConfigFault::Parse(s@),
            ConfigError::StrumParseError(s) => ConfigFault::Strum(s@),
            ConfigError::ParseIntError(s) => ConfigFault::ParseInt(s@),
        }
    }
}

/// The value of a 16-bit setting: the number that the text stands for, or
/// the error of a text that stands for none up to 65535.
pub open spec fn wide(text: Seq<char>) -> Result<u16, ConfigFault> {
    match numeral(text) {
        Some(v) if v <= 0xffff => Ok(v as u16),
        _ => Err(ConfigFault::ParseInt(u16_refusal(text))),
    }
}

/// The value of an 8-bit setting: the number that the text stands for, or
/// the error of a text that stands for none up to 255.
pub open spec fn narrow(text: Seq<char>) -> Result<u8, ConfigFault> {
    match numeral(text) {
        Some(v) if v <= 0xff => Ok(v as u8),
        _ => Err(ConfigFault::ParseInt(u8_refusal(text))),
    }
}

/// The setting that a variable of this name and value gives.
pub open spec fn setting_of(name: Seq<char>, value: Seq<char>) -> Result<SettingValue, ConfigFault> {
    match setting_named(name) {
        None => Err(ConfigFault::Strum(no_variant())),
        Some(Setting::AuthKey) => Ok(SettingValue::AuthKey(value)),
        Some(Setting::Address) => Ok(SettingValue::Address(value)),
        Some(Setting::Port) => match wide(value) {
            Ok(n) => Ok(SettingValue::Port(n)),
            Err(e) => Err(e),
        },
        Some(Setting::RequestInterval) => match narrow(value) {
            Ok(n) => Ok(SettingValue::RequestInterval(n)),
            Err(e) => Err(e),
        },
        Some(Setting::ScriptDelay) => match narrow(value) {
            Ok(n) => Ok(SettingValue::ScriptDelay(n)),
            Err(e) => Err(e),
        },
    }
}

/// What looking for a variable gives: nothing where it is not set, else
/// the setting that it gives.
pub open spec fn found(env: Seq<(Seq<char>, Seq<char>)>, name: Seq<char>) -> Result<
    Option<SettingValue>,
    ConfigFault,
> {
    match value_of(env, name) {
        None => Ok(None),
        Some(value) => match setting_of(name, value) {
            Ok(v) => Ok(Some(v)),
            Err(e) => Err(e),
        },
    }
}

impl Setting {
    /// The name of the setting's variable.
    pub fn name(&self) -> (r: &'static str)
        ensures
            setting_named(r@) == Some(*self),
    {
        proof {
            lemma_setting_names();
        }
        match self {
            Setting::AuthKey => "AUTH_KEY",
            Setting::Port => "PORT",
            Setting::Address => "ADDRESS",
            Setting::RequestInterval => "REQUEST_INTERVAL",
            Setting::ScriptDelay => "SCRIPT_DELAY",
        }
    }

    /// Finds the setting of a variable's name.
    pub fn named(name: &str) -> (r: Option<Setting>)
        ensures
            r == setting_named(name@),
    {
        let name = name.to_owned();
        if name == "AUTH_KEY".to_owned() {
            Some(Setting::AuthKey)
        } else if name == "PORT".to_owned() {
            Some(Setting::Port)
        } else if name == "ADDRESS".to_owned() {
            Some(Setting::Address)
        } else if name == "REQUEST_INTERVAL".to_owned() {
            Some(Setting::RequestInterval)
        } else if name == "SCRIPT_DELAY".to_owned() {
            Some(Setting::ScriptDelay)
        } else {
            None
        }
    }
}

impl ConfigValues {
    /// The setting that a variable of this name and value gives.
    pub fn parse(name: &str, value: String) -> (r: Result<ConfigValues, ConfigError>)
        ensures
            match r {
                Ok(v) => setting_of(name@, value@) == Ok::<SettingValue, ConfigFault>(v@),
                Err(e) => setting_of(name@, value@) == Err::<SettingValue, ConfigFault>(e@),
            },
    {
        match Setting::named(name) {
            None => Err(ConfigError::StrumParseError("Matching variant not found".to_owned())),
            Some(Setting::AuthKey) => Ok(ConfigValues::AuthKey(value)),
            Some(Setting::Address) => Ok(ConfigValues::Address(value)),
            Some(Setting::Port) => match parse_u16(value.as_str()) {
                Ok(n) => Ok(ConfigValues::Port(n)),
                Err(e) => Err(ConfigError::ParseIntError(e)),
            },
            Some(Setting::RequestInterval) => match parse_u8(value.as_str()) {
                Ok(n) => Ok(ConfigValues::RequestInterval(n)),
                Err(e) => Err(ConfigError::ParseIntError(e)),
            },
            Some(Setting::ScriptDelay) => match parse_u8(value.as_str()) {
                Ok(n) => Ok(ConfigValues::ScriptDelay(n)),
                Err(e) => Err(ConfigError::ParseIntError(e)),
            },
        }
    }
}

/// The settings, as the contracts see them.
pub struct Settings {
    pub auth_key: Seq<char>,
    pub port: u16,
    pub address: Seq<char>,
    pub request_interval: u8,
    pub script_delay: u8,
}

impl View for Configs {
    type V = Settings;

    open spec fn view(&self) -> Settings {
        Settings {
            auth_key: self.auth_key@,
            port: self.port,
            address: self.address@,
            request_interval: self.request_interval,
            script_delay: self.script_delay,
        }
    }
}

/// The port of an environment: 8384 where `PORT` is not set.
pub open spec fn port_of(env: Seq<(Seq<char>, Seq<char>)>) -> Result<u16, ConfigFault> {
    match value_of(env, "PORT"@) {
        None => Ok(8384),
        Some(text) => wide(text),
    }
}

/// The address of an environment: this machine where `ADDRESS` is not set.
pub open spec fn address_of(env: Seq<(Seq<char>, Seq<char>)>) -> Seq<char> {
    match value_of(env, "ADDRESS"@) {
        None => "http://127.0.0.1"@,
        Some(text) => text,
    }
}

/// The seconds between two requests: 60 where `REQUEST_INTERVAL` is not
/// set.
pub open spec fn interval_of(env: Seq<(Seq<char>, Seq<char>)>) -> Result<u8, ConfigFault> {
    match value_of(env, "REQUEST_INTERVAL"@) {
        None => Ok(60),
        Some(text) => narrow(text),
    }
}

/// The delay of the scripts: 1 where `SCRIPT_DELAY` is not set.
pub open spec fn delay_of(env: Seq<(Seq<char>, Seq<char>)>) -> Result<u8, ConfigFault> {
    match value_of(env, "SCRIPT_DELAY"@) {
        None => Ok(1),
        Some(text) => narrow(text),
    }
}

/// The settings of an environment. `AUTH_KEY` must be set; the other
/// variables have defaults. The variables are read in the order key,
/// port, address, interval, delay, and the first error is the one given.
pub open spec fn loaded(env: Seq<(Seq<char>, Seq<char>)>) -> Result<Settings, ConfigFault> {
    match value_of(env, "AUTH_KEY"@) {
        None => Err(ConfigFault::Missing("unable to find auth_key in .env"@)),
        Some(auth_key) => match port_of(env) {
            Err(e) => Err(e),
            Ok(port) => match interval_of(env) {
                Err(e) => Err(e),
                Ok(request_interval) => match delay_of(env) {
                    Err(e) => Err(e),
                    Ok(script_delay) => Ok(
                        Settings {
                            auth_key,
                            port,
                            address: address_of(env),
                            request_interval,
                            script_delay,
                        },
                    ),
                },
            },
        },
    }
}

/// The five names are the names of the five settings.
pub proof fn lemma_setting_names()
    ensures
        setting_named("AUTH_KEY"@) == Some(Setting::AuthKey),
        setting_named("PORT"@) == Some(Setting::Port),
        setting_named("ADDRESS"@) == Some(Setting::Address),
        setting_named("REQUEST_INTERVAL"@) == Some(Setting::RequestInterval),
        setting_named("SCRIPT_DELAY"@) == Some(Setting::ScriptDelay),
{
    reveal_strlit("AUTH_KEY");
    reveal_strlit("PORT");
    reveal_strlit("ADDRESS");
    reveal_strlit("REQUEST_INTERVAL");
    reveal_strlit("SCRIPT_DELAY");
    assert("AUTH_KEY"@.len() == 8);
    assert("PORT"@.len() == 4);
    assert("ADDRESS"@.len() == 7);
    assert("REQUEST_INTERVAL"@.len() == 16);
    assert("SCRIPT_DELAY"@.len() == 12);
}

impl ConfigError {
    /// The error in words.
    pub open spec fn words(fault: ConfigFault) -> Seq<char> {
        match fault {
            ConfigFault::Missing(s) => "Unable to find env var: `"@ + s + "`"@,
            ConfigFault::Parse(s) => "Error while parsing env vars: `"@ + s + "`"@,
            ConfigFault::Strum(s) => "Error with strum: `"@ + s + "`"@,
            ConfigFault::ParseInt(s) => "Error with strum: `"@ + s + "`"@,
        }
    }

    /// The error in words.
    pub fn message(&self) -> (r: String)
        ensures
            r@ == Self::words(self@),
    {
        match self {
            ConfigError::MissingError(s) => join3("Unable to find env var: `", s.as_str(), "`"),
            ConfigError::ParseError(s) => join3(
                "Error while parsing env vars: `",
                s.as_str(),
                "`",
            ),
            ConfigError::StrumParseError(s) => join3("Error with strum: `", s.as_str(), "`"),
            ConfigError::ParseIntError(s) => join3("Error with strum: `", s.as_str(), "`"),
        }
    }
}

impl Configs {
    /// The value of a variable in an environment: that of the first pair
    /// of its name.
    pub fn lookup(env: &Vec<(String, String)>, name: &str) -> (r: Option<String>)
        ensures
            match r {
                Some(value) => value_of(variables(env@), name@) == Some(value@),
                None => value_of(variables(env@), name@) is None,
            },
    {
        let wanted = name.to_owned();
        let ghost model = variables(env@);
        assert(model.subrange(0, model.len() as int) =~= model);
        let mut i: usize = 0;
        while i < env.len()
            invariant
                i <= env.len(),
                wanted@ == name@,
                model == variables(env@),
                value_of(model, name@) == value_of(
                    model.subrange(i as int, model.len() as int),
                    name@,
                ),
            decreases env.len() - i,
        {
            let ghost rest = model.subrange(i as int, model.len() as int);
            assert(rest[0] == model[i as int]);
            if env[i].0 == wanted {
                return Some(env[i].1.clone());
            }
            assert(rest.drop_first() =~= model.subrange(i as int + 1, model.len() as int));
            i += 1;
        }
        None
    }

    /// Looks for a setting in an environment: nothing where its variable is
    /// not set, else the setting that the variable gives.
    pub fn get_var(env: &Vec<(String, String)>, config_value: String) -> (r: Result<
        Option<ConfigValues>,
        ConfigError,
    >)
        ensures
            match r {
                Ok(Some(v)) => found(variables(env@), config_value@) == Ok::<
                    Option<SettingValue>,
                    ConfigFault,
                >(Some(v@)),
                Ok(None) => found(variables(env@), config_value@) == Ok::<
                    Option<SettingValue>,
                    ConfigFault,
                >(None),
                Err(e) => found(variables(env@), config_value@) == Err::<
                    Option<SettingValue>,
                    ConfigFault,
                >(e@),
            },
    {
        let valid_var = match Self::lookup(env, config_value.as_str()) {
            Some(value) => value,
            None => {
                return Ok(None);
            },
        };
        match ConfigValues::parse(config_value.as_str(), valid_var) {
            Ok(v) => Ok(Some(v)),
            Err(e) => Err(e),
        }
    }

    /// Reads the settings from an environment.
    pub fn load(env: &Vec<(String, String)>) -> (r: Result<Configs, ConfigError>)
        ensures
            match r {
                Ok(configs) => loaded(variables(env@)) == Ok::<Settings, ConfigFault>(configs@),
                Err(e) => loaded(variables(env@)) == Err::<Settings, ConfigFault>(e@),
            },
    {
        proof {
            lemma_setting_names();
        }
        let auth_key = match Self::get_var(env, "AUTH_KEY".to_owned())? {
            Some(ConfigValues::AuthKey(c)) => c,
            Some(_) => {
                return Err(
                    ConfigError::ParseError(
                        "error parsing auth_key from .env file, please check it and try again".to_owned(),
                    ),
                );
            },
            None => {
                return Err(
                    ConfigError::MissingError("unable to find auth_key in .env".to_owned()),
                );
            },
        };
        let port = match Self::get_var(env, "PORT".to_owned())? {
            Some(ConfigValues::Port(c)) => c,
            Some(_) => {
                return Err(
                    ConfigError::ParseError(
                        "error parsing port from .env file, please check it and try again".to_owned(),
                    ),
                );
            },
            None => 8384,
        };
        let address = match Self::get_var(env, "ADDRESS".to_owned())? {
            Some(ConfigValues::Address(c)) => c,
            Some(_) => {
                return Err(
                    ConfigError::ParseError(
                        "error parsing address from .env file, please check it and try again".to_owned(),
                    ),
                );
            },
            None => "http://127.0.0.1".to_owned(),
        };
        let request_interval = match Self::get_var(env, "REQUEST_INTERVAL".to_owned())? {
            Some(ConfigValues::RequestInterval(c)) => c,
            Some(_) => {
                return Err(
                    ConfigError::ParseError(
                        "error parsing request interval from .env file, please check it and try again".to_owned(),
                    ),
                );
            },
            None => 60,
        };
        let script_delay = match Self::get_var(env, "SCRIPT_DELAY".to_owned())? {
            Some(ConfigValues::ScriptDelay(c)) => c,
            Some(_) => {
                return Err(
                    ConfigError::ParseError(
                        "error parsing request interval from .env file, please check it and try again".to_owned(),
                    ),
                );
            },
            None => 1,
        };
        Ok(Configs { address, auth_key, port, request_interval, script_delay })
    }
}

} // verus!
