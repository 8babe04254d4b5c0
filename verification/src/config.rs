//! Configuration assembly: the raw optional values read from the settings
//! file become a complete configuration, with the documented defaults
//! filled in and a missing or empty callback URL rejected.

use vstd::prelude::*;

verus! {

/// Why a configuration could not be assembled.
#[derive(Clone, Copy, Debug, PartialEq, Eq, Structural)]
pub enum ConfigError {
    /// The callback URL is absent or empty; startup must halt.
    MissingWebhook,
}

/// The values the change loop runs with.
pub struct Config {
    /// The callback URL notifications are delivered to. Never empty.
    pub webhook: String,
    /// Seconds between ticks of the steady-state loop.
    pub wait_seconds: u64,
    /// The lookup endpoint that echoes the caller's public address.
    pub ip_grab_url: String,
    /// The blacklist rules, in evaluation order; an absent entry is a
    /// settings value of the wrong shape and is skipped.
    pub blacklist_words: Vec<Option<String>>,
}

/// The default lookup endpoint.
pub open spec fn default_lookup_url() -> Seq<char> {
    "https://api.ipify.org"@
}

/// Assembles a configuration from the optional raw settings values:
/// `wait_seconds` defaults to 60, the lookup endpoint to the default
/// echo service, and a missing or empty `webhook` halts startup.
pub fn from_parts(
    webhook: Option<String>,
    wait_seconds: Option<u64>,
    ip_grab_url: Option<String>,
    blacklist_words: Vec<Option<String>>,
) -> (r: Result<Config, ConfigError>)
    ensures
        r is Err <==> (match webhook {
            Some(w) => w@.len() == 0,
            None => true,
        }),
        r matches Err(e) ==> e == ConfigError::MissingWebhook,
        r matches Ok(c) ==> {
            &&& webhook matches Some(w) && c.webhook == w
            &&& c.wait_seconds == (match wait_seconds {
                Some(s) => s,
                None => 60u64,
            })
            &&& c.ip_grab_url@ == (match ip_grab_url {
                Some(u) => u@,
                None => default_lookup_url(),
            })
            &&& c.blacklist_words == blacklist_words
        },
{
    let w = match webhook {
        Some(w) => w,
        None => {
            return Err(ConfigError::MissingWebhook);
        },
    };
    if w.as_str().is_empty() {
        return Err(ConfigError::MissingWebhook);
    }
    let wait = match wait_seconds {
        Some(s) => s,
        None => 60,
    };
    let url = match ip_grab_url {
        Some(u) => u,
        None => "https://api.ipify.org".to_owned(),
    };
    Ok(Config { webhook: w, wait_seconds: wait, ip_grab_url: url, blacklist_words })
}

} // verus!
