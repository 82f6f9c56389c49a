//! The fail-fast configuration loader.
//!
//! [`load_config`] takes the looked-up values of the two required
//! environment keys and either returns a fully-populated [`Config`] or
//! reports which key failed and why. Every failure is fatal by design: the
//! embedding binary emits [`ConfigError::message`] and terminates, so no
//! partially-populated configuration is ever observable.

use vstd::prelude::*;
use vstd::string::StringExecFns;
use crate::port::parse_port;
use crate::port::spec_parse_port;

verus! {

/// Validated startup configuration. A value of this type always has both
/// fields present and well-formed: construction either fully succeeds or
/// yields a [`ConfigError`] instead.
#[derive(Debug, Clone, PartialEq)]
pub struct Config {
    /// Value of `SERVICE_HOST`, used verbatim.
    pub service_host: String,
    /// Value of `SERVICE_PORT`, coerced to a port number.
    pub service_port: u16,
}

/// A fatal configuration failure. There is no recovery path: the embedding
/// binary emits the diagnostic and terminates the process.
#[derive(Debug, Clone, PartialEq)]
pub enum ConfigError {
    /// A required environment key had no value.
    MissingVariable { key: String },
    /// A required environment key's value could not be coerced to its
    /// target type; `raw` is the rejected text.
    MalformedVariable { key: String, raw: String },
}

/// The key a failure is about.
pub open spec fn error_key(e: ConfigError) -> Seq<char> {
    match e {
        ConfigError::MissingVariable { key } => key@,
        ConfigError::MalformedVariable { key, raw } => key@,
    }
}

/// The diagnostic line for a failure: kind, key, then the cause — the
/// lookup failure reason for a missing key, the rejected text for a
/// malformed value.
pub open spec fn spec_message(e: ConfigError) -> Seq<char> {
    match e {
        ConfigError::MissingVariable { key } => "get env val error: "@ + key@
            + " environment variable not found"@,
        ConfigError::MalformedVariable { key, raw } => "parse env val error: "@ + key@ + ", "@
            + raw@,
    }
}

impl ConfigError {
    /// The diagnostic line to emit before terminating, exactly as
    /// [`spec_message`] lays it out.
    pub fn message(&self) -> (m: String)
        ensures
            m@ == spec_message(*self),
    {
        match self {
            ConfigError::MissingVariable { key } => {
                let mut m = String::from_str("get env val error: ");
                m.append(key.as_str());
                m.append(" environment variable not found");
                m
            },
            ConfigError::MalformedVariable { key, raw } => {
                let mut m = String::from_str("parse env val error: ");
                m.append(key.as_str());
                m.append(", ");
                m.append(raw.as_str());
                m
            },
        }
    }
}

/// `s` occurs verbatim in `m`, starting at `i`.
pub open spec fn occurs_at(m: Seq<char>, s: Seq<char>, i: int) -> bool {
    0 <= i && i + s.len() <= m.len() && m.subrange(i, i + s.len() as int) == s
}

/// Every diagnostic names the key it is about: the key occurs verbatim in
/// the message.
pub proof fn lemma_message_names_key(e: ConfigError)
    ensures
        exists|i: int| occurs_at(spec_message(e), error_key(e), i),
{
    match e {
        ConfigError::MissingVariable { key } => {
            let p = "get env val error: "@;
            let m = spec_message(e);
            assert(m.subrange(p.len() as int, p.len() + key@.len() as int) =~= key@);
            assert(occurs_at(spec_message(e), error_key(e), p.len() as int));
        },
        ConfigError::MalformedVariable { key, raw } => {
            let p = "parse env val error: "@;
            let m = spec_message(e);
            assert(m.subrange(p.len() as int, p.len() + key@.len() as int) =~= key@);
            assert(occurs_at(spec_message(e), error_key(e), p.len() as int));
        },
    }
}

/// A malformed-value diagnostic carries the rejected raw text verbatim.
pub proof fn lemma_message_names_raw(key: String, raw: String)
    ensures
        ({
            let m = spec_message(ConfigError::MalformedVariable { key, raw });
            occurs_at(m, raw@, m.len() - raw@.len())
        }),
{
    let m = spec_message(ConfigError::MalformedVariable { key, raw });
    assert(m.subrange(m.len() - raw@.len(), m.len() as int) =~= raw@);
}

/// Abstract outcome of one load, stated over views: what `load_config`
/// returned and, on failure, which key failed and how.
pub enum LoadOutcome {
    Loaded { host: Seq<char>, port: u16 },
    Missing { key: Seq<char> },
    Malformed { key: Seq<char>, raw: Seq<char> },
}

/// The outcome a concrete result stands for.
pub open spec fn outcome_of(r: Result<Config, ConfigError>) -> LoadOutcome {
    match r {
        Ok(c) => LoadOutcome::Loaded { host: c.service_host@, port: c.service_port },
        Err(ConfigError::MissingVariable { key }) => LoadOutcome::Missing { key: key@ },
        Err(ConfigError::MalformedVariable { key, raw }) => LoadOutcome::Malformed {
            key: key@,
            raw: raw@,
        },
    }
}

/// The view of an optional looked-up value.
pub open spec fn opt_view(o: Option<String>) -> Option<Seq<char>> {
    match o {
        Some(s) => Some(s@),
        None => None,
    }
}

/// The loader's decision, as a function of the environment state alone:
/// `SERVICE_HOST` is checked first, then `SERVICE_PORT`'s presence, then
/// its coercion.
pub open spec fn spec_load(host: Option<Seq<char>>, port: Option<Seq<char>>) -> LoadOutcome {
    match host {
        None => LoadOutcome::Missing { key: "SERVICE_HOST"@ },
        Some(h) => match port {
            None => LoadOutcome::Missing { key: "SERVICE_PORT"@ },
            Some(p) => match spec_parse_port(p) {
                Some(n) => LoadOutcome::Loaded { host: h, port: n },
                None => LoadOutcome::Malformed { key: "SERVICE_PORT"@, raw: p },
            },
        },
    }
}

/// Resolve one required key from its looked-up value: the value verbatim,
/// or a missing-variable error naming the key.
pub fn env_get(key: &str, value: Option<String>) -> (r: Result<String, ConfigError>)
    ensures
        value matches Some(v) ==> r == Ok::<String, ConfigError>(v),
        value is None ==> (r matches Err(e) && e matches ConfigError::MissingVariable { key: k }
            && k@ == key@),
{
    match value {
        Some(v) => Ok(v),
        None => Err(ConfigError::MissingVariable { key: key.to_owned() }),
    }
}

/// Resolve one required key and coerce its value to a port number: a
/// missing-variable error when the key has no value, a malformed-variable
/// error carrying the rejected text when coercion fails.
pub fn env_parse(key: &str, value: Option<String>) -> (r: Result<u16, ConfigError>)
    ensures
        value matches Some(v) ==> match spec_parse_port(v@) {
            Some(n) => r == Ok::<u16, ConfigError>(n),
            None => (r matches Err(e) && e matches ConfigError::MalformedVariable { key: k, raw }
                && k@ == key@ && raw@ == v@),
        },
        value is None ==> (r matches Err(e) && e matches ConfigError::MissingVariable { key: k }
            && k@ == key@),
{
    let raw = match env_get(key, value) {
        Ok(v) => v,
        Err(e) => {
            return Err(e);
        },
    };
    match parse_port(raw.as_str()) {
        Some(n) => Ok(n),
        None => Err(ConfigError::MalformedVariable { key: key.to_owned(), raw }),
    }
}

/// Produce a validated configuration from the looked-up values of
/// `SERVICE_HOST` and `SERVICE_PORT`, or say exactly which key failed and
/// how; the outcome is a function of the environment state alone.
pub fn load_config(service_host: Option<String>, service_port: Option<String>) -> (r: Result<
    Config,
    ConfigError,
>)
    ensures
        outcome_of(r) == spec_load(opt_view(service_host), opt_view(service_port)),
{
    let host = match env_get("SERVICE_HOST", service_host) {
        Ok(v) => v,
        Err(e) => {
            return Err(e);
        },
    };
    let port = match env_parse("SERVICE_PORT", service_port) {
        Ok(v) => v,
        Err(e) => {
            return Err(e);
        },
    };
    Ok(Config { service_host: host, service_port: port })
}

/// Loading is idempotent: two loads from field-wise equal environment
/// states have equal outcomes, so the configurations they return are
/// field-wise equal.
pub proof fn lemma_load_idempotent(
    host1: Option<Seq<char>>,
    port1: Option<Seq<char>>,
    host2: Option<Seq<char>>,
    port2: Option<Seq<char>>,
)
    requires
        host1 == host2,
        port1 == port2,
    ensures
        spec_load(host1, port1) == spec_load(host2, port2),
{
}

} // verus!
