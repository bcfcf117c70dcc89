//! Configuration from the process environment, in two layers: a raw value
//! that may be absent becomes the zero value of its type, and a zero value
//! becomes the default of the setting it is for.
use vstd::prelude::*;
use vstd::string::StringExecFns;

verus! {

/// The port that the service listens on where none is configured.
pub const DEFAULT_PORT: u32 = 8001;

/// The largest port that an address can carry.
pub const MAX_PORT: u32 = 65535;

/// Why the process must not start.
#[derive(Clone, Copy, Debug, PartialEq, Eq, Structural)]
pub enum ConfigError {
    /// A variable that should hold a number holds something else.
    Malformed,
    /// The variable that a configured secret name points to is not set.
    MissingSecret,
    /// The port does not fit in a listen address.
    PortOutOfRange,
}

/// What `str::parse::<u32>` makes of a text: the number, or `None` where it
/// refuses the text.
pub uninterp spec fn parsed_u32(text: Seq<char>) -> Option<u32>;

/// Calls `str::parse::<u32>` of the standard library and drops the cause of a
/// refusal. The contract only names the outcome: it depends on the text
/// alone. Nothing is claimed about which texts are numbers.
#[verifier::external_body]
fn parse_u32(text: &str) -> (value: Option<u32>)
    ensures
        value == parsed_u32(text@),
{
    text.parse::<u32>().ok()
}

/// The text of a variable: what it holds, or the empty text where it is unset.
pub open spec fn text_of(raw: Option<Seq<char>>) -> Seq<char> {
    match raw {
        Some(text) => text,
        None => Seq::empty(),
    }
}

/// The number for an outcome of parsing: a refusal is a malformed variable.
pub open spec fn number_of_parsed(parsed: Option<u32>) -> Result<u32, ConfigError> {
    match parsed {
        Some(number) => Ok(number),
        None => Err(ConfigError::Malformed),
    }
}

/// The number of a variable: zero where it is unset, else what its text
/// parses to.
pub open spec fn number_of(raw: Option<Seq<char>>) -> Result<u32, ConfigError> {
    match raw {
        None => Ok(0),
        Some(text) => number_of_parsed(parsed_u32(text)),
    }
}

/// The setting's default in place of a zero.
pub open spec fn port_or(port: u32) -> u32 {
    if port == 0 {
        DEFAULT_PORT
    } else {
        port
    }
}

/// The port to listen on for a resolved number.
pub open spec fn listen_port_of(port: u32) -> Result<u16, ConfigError> {
    if port_or(port) <= MAX_PORT {
        Ok(port_or(port) as u16)
    } else {
        Err(ConfigError::PortOutOfRange)
    }
}

/// The environment's name, `dev` where none is set.
pub open spec fn environment_of(name: Seq<char>) -> Seq<char> {
    if name.len() == 0 {
        "dev"@
    } else {
        name
    }
}

/// The secret for a configured name and for what the lookup of that name
/// brought: no name means no secret, a name without a value is an error.
pub open spec fn secret_of(name: Seq<char>, looked_up: Option<Seq<char>>) -> Result<
    Seq<char>,
    ConfigError,
> {
    if name.len() == 0 {
        Ok(Seq::empty())
    } else {
        match looked_up {
            Some(value) => Ok(value),
            None => Err(ConfigError::MissingSecret),
        }
    }
}

/// The views of an optional text.
pub open spec fn view_of(raw: Option<String>) -> Option<Seq<char>> {
    match raw {
        Some(text) => Some(text@),
        None => None,
    }
}

/// Resolves a text variable: an unset one is the empty text, never an error.
pub fn resolve_text(raw: Option<String>) -> (text: String)
    ensures
        text@ == text_of(view_of(raw)),
{
    match raw {
        Some(text) => text,
        None => String::new(),
    }
}

/// Turns the outcome of parsing a number into the resolver's answer.
pub fn number_or_malformed(parsed: Option<u32>) -> (number: Result<u32, ConfigError>)
    ensures
        number == number_of_parsed(parsed),
{
    match parsed {
        Some(number) => Ok(number),
        None => Err(ConfigError::Malformed),
    }
}

/// Resolves a number variable: an unset one is zero, a set one must parse.
pub fn resolve_number(raw: Option<String>) -> (number: Result<u32, ConfigError>)
    ensures
        number == number_of(view_of(raw)),
{
    match raw {
        None => Ok(0),
        Some(text) => number_or_malformed(parse_u32(text.as_str())),
    }
}

/// The second layer for the port: zero means the default port.
pub fn port_or_default(port: u32) -> (chosen: u32)
    ensures
        chosen == port_or(port),
        port != 0 ==> chosen == port,
        port == 0 ==> chosen == 8001,
{
    if port == 0 {
        DEFAULT_PORT
    } else {
        port
    }
}

/// The port to bind for a resolved number: the default in place of zero, and
/// an error where the port is too large for an address.
pub fn listen_port(port: u32) -> (bound: Result<u16, ConfigError>)
    ensures
        bound == listen_port_of(port),
{
    let chosen = port_or_default(port);
    if chosen <= MAX_PORT {
        Ok(chosen as u16)
    } else {
        Err(ConfigError::PortOutOfRange)
    }
}

/// The second layer for the environment's name: empty means `dev`.
pub fn environment_or_default(name: String) -> (chosen: String)
    ensures
        chosen@ == environment_of(name@),
{
    if name.as_str().is_empty() {
        "dev".to_owned()
    } else {
        name
    }
}

/// The path of the settings file of an environment.
pub fn config_path(environment: &str) -> (path: String)
    ensures
        path@ == "./config/"@ + environment@ + ".env"@,
{
    let mut path: String = "./config/".to_owned();
    path.append(environment);
    path.append(".env");
    path
}

/// Whether a secret name asks for a lookup at all: the empty name does not.
pub fn needs_lookup(name: &str) -> (needed: bool)
    ensures
        needed == (name@.len() > 0),
{
    !name.is_empty()
}

/// Resolves a secret through its name. `looked_up` is what the environment
/// holds under `name`; it is not read where the name is empty.
pub fn resolve_secret(name: &str, looked_up: Option<String>) -> (secret: Result<
    String,
    ConfigError,
>)
    ensures
        (match secret {
            Ok(value) => Ok(value@),
            Err(error) => Err(error),
        }) == secret_of(name@, view_of(looked_up)),
{
    if name.is_empty() {
        Ok(String::new())
    } else {
        match looked_up {
            Some(value) => Ok(value),
            None => Err(ConfigError::MissingSecret),
        }
    }
}

/// An unset port variable gives the default port.
pub proof fn lemma_unset_port_is_default()
    ensures
        number_of(None) == Ok::<u32, ConfigError>(0),
        listen_port_of(0) == Ok::<u16, ConfigError>(8001),
{
}

/// An unset secret name gives the empty secret, whatever the environment
/// holds.
pub proof fn lemma_unset_name_no_secret(looked_up: Option<Seq<char>>)
    ensures
        secret_of(text_of(None), looked_up) == Ok::<Seq<char>, ConfigError>(Seq::empty()),
{
}

} // verus!
