use vstd::prelude::*;
use vstd::string::StringExecFns;

verus! {

/// The Hacker News part of the configuration.
#[derive(Debug, Clone)]
pub struct HNSettings {
    /// The value of the `user` session cookie, `name&token`.
    pub auth: Option<String>,
    /// How often the Hacker News lists are synced.
    pub schedule: String,
    /// How often the favorites list is synced, where it differs from `schedule`.
    pub favorited_schedule: Option<String>,
    pub disable_upvoted: Option<bool>,
    pub disable_favorites: Option<bool>,
}

/// What looking up an environment variable gave.
pub enum EnvVar {
    /// The variable is set to this text.
    Present(String),
    /// The variable is not set.
    NotPresent,
    /// The variable is set but cannot be read; the text says why.
    Unreadable(String),
}

/// Why a boolean setting could not be taken from the environment.
#[derive(Debug, Clone)]
pub enum SettingsError {
    /// The variable `name` holds text that is not a boolean; `reason` says why.
    InvalidBool { name: String, reason: String },
    /// The variable `name` could not be read; `reason` says why.
    Unreadable { name: String, reason: String },
}

/// A boolean setting's text could not be parsed; `reason` says why.
#[derive(Debug, Clone)]
pub struct BoolParseError {
    pub reason: String,
}

/// The text of a boolean as Rust writes it: `true` or `false`.
pub open spec fn bool_text(b: bool) -> Seq<char> {
    if b {
        "true"@
    } else {
        "false"@
    }
}

/// Whether `value` is the text of some boolean.
pub open spec fn is_bool_text(value: Seq<char>) -> bool {
    value == "true"@ || value == "false"@
}

/// `true` and `false` are written `"true"` and `"false"`, and no text is both.
pub proof fn lemma_bool_text()
    ensures
        bool_text(true) == "true"@,
        bool_text(false) == "false"@,
        "true"@ != "false"@,
        forall|v: Seq<char>| is_bool_text(v) <==> (v == "true"@ || v == "false"@),
        forall|a: bool, b: bool| bool_text(a) == bool_text(b) ==> a == b,
{
    reveal_strlit("true");
    reveal_strlit("false");
    assert("true"@.len() != "false"@.len());
}

/// Calls `<bool as FromStr>::from_str` (`str::parse::<bool>`), which by its
/// documentation accepts exactly `"true"` and `"false"`; the error is turned
/// into its message.
#[verifier::external_body]
fn parse_bool_str(value: &str) -> (res: Result<bool, String>)
    ensures
        res is Ok <==> is_bool_text(value@),
        res matches Ok(b) ==> value@ == bool_text(b),
{
    value.parse::<bool>().map_err(|e| e.to_string())
}

/// Parses a boolean setting: `true` or `false`, and nothing else.
pub fn parse_bool_value(value: &str) -> (res: Result<Option<bool>, BoolParseError>)
    ensures
        res is Ok <==> is_bool_text(value@),
        res matches Ok(b) ==> b matches Some(v) && value@ == bool_text(v),
        value@ == "true"@ ==> (res matches Ok(Some(b)) && b),
        value@ == "false"@ ==> (res matches Ok(Some(b)) && !b),
        !(value@ == "true"@ || value@ == "false"@) ==> res is Err,
{
    proof {
        lemma_bool_text();
    }
    match parse_bool_str(value) {
        Ok(b) => Ok(Some(b)),
        Err(reason) => Err(BoolParseError { reason }),
    }
}

/// An optional boolean setting taken from the variable `name`: unset gives
/// `None`, `true`/`false` give that value, anything else is an error.
pub fn optional_bool_from_env(name: &str, var: EnvVar) -> (res: Result<Option<bool>, SettingsError>)
    ensures
        var is NotPresent ==> res == Ok::<Option<bool>, SettingsError>(None),
        var matches EnvVar::Present(v) ==> (v@ == "true"@ ==> (res matches Ok(Some(b)) && b)),
        var matches EnvVar::Present(v) ==> (v@ == "false"@ ==> (res matches Ok(Some(b)) && !b)),
        var matches EnvVar::Present(v) ==> (!(v@ == "true"@ || v@ == "false"@) ==> res is Err),
        var matches EnvVar::Present(v) ==> {
            &&& res is Ok <==> is_bool_text(v@)
            &&& res matches Ok(b) ==> b matches Some(x) && v@ == bool_text(x)
            &&& res matches Err(e) ==> e matches SettingsError::InvalidBool { name: n, .. } && n@
                == name@
        },
        var matches EnvVar::Unreadable(why) ==> res matches Err(e) && e matches SettingsError::Unreadable {
            name: n,
            reason: r,
        } && n@ == name@ && r@ == why@,
{
    proof {
        lemma_bool_text();
    }
    match var {
        EnvVar::Present(value) => match parse_bool_value(value.as_str()) {
            Ok(b) => Ok(b),
            Err(e) => Err(SettingsError::InvalidBool { name: String::from_str(name), reason: e.reason }),
        },
        EnvVar::NotPresent => Ok(None),
        EnvVar::Unreadable(reason) => Err(SettingsError::Unreadable { name: String::from_str(name), reason }),
    }
}

impl SettingsError {
    /// What went wrong, as a sentence: `invalid boolean value for {name}: {reason}`
    /// or `failed to read {name}: {reason}`.
    pub fn message(&self) -> (m: String)
        ensures
            self matches SettingsError::InvalidBool { name, reason } ==> m@ == "invalid boolean value for "@
                + name@ + ": "@ + reason@,
            self matches SettingsError::Unreadable { name, reason } ==> m@ == "failed to read "@
                + name@ + ": "@ + reason@,
    {
        match self {
            SettingsError::InvalidBool { name, reason } => {
                let mut m = String::from_str("invalid boolean value for ");
                m.append(name.as_str());
                m.append(": ");
                m.append(reason.as_str());
                m
            },
            SettingsError::Unreadable { name, reason } => {
                let mut m = String::from_str("failed to read ");
                m.append(name.as_str());
                m.append(": ");
                m.append(reason.as_str());
                m
            },
        }
    }
}

} // verus!
