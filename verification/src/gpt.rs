use vstd::prelude::*;
use vstd::string::StringExecFns;

use crate::config::Mode;
use crate::resource::{Presence, ResourceError};

verus! {

/// The cloud completion backend's view of the configuration: the endpoint,
/// the optional API key, and the mode — and with them the credential
/// resource, the only resource of the cloud pipeline.
pub struct Gpt {
    /// The cloud completion endpoint requests go to.
    pub url: String,
    /// The configured API key, when there is one.
    pub key: Option<String>,
    /// The operation mode of the run.
    pub mode: Mode,
}

impl Gpt {
    /// Capture the endpoint, key and mode for the run.
    pub fn new(url: &str, key: &Option<String>, mode: Mode) -> (g: Gpt)
        ensures
            g.url@ == url@,
            g.key == *key,
            g.mode == mode,
    {
        Gpt {
            url: String::from_str(url),
            key: match key {
                Some(k) => Some(k.clone()),
                None => None,
            },
            mode,
        }
    }

    /// The key a request goes out with: in the cloud mode the configured
    /// key, whose absence is a hard configuration error; the local modes
    /// need none and get the empty key.
    pub fn resolve_key(&self) -> (r: Result<&str, ResourceError>)
        ensures
            self.mode == Mode::Cloud && self.key is Some ==> (r matches Ok(k) && k@
                == self.key->0@),
            self.mode == Mode::Cloud && self.key is None ==> (r matches Err(e) && e is ConfigError),
            self.mode != Mode::Cloud ==> (r matches Ok(k) && k@ == ""@),
    {
        if self.mode == Mode::Cloud {
            match &self.key {
                Some(k) => Ok(k.as_str()),
                None => Err(
                    ResourceError::ConfigError(
                        String::from_str(
                            "no cloud API key is configured; set the key in the configuration, or use a local mode",
                        ),
                    ),
                ),
            }
        } else {
            Ok("")
        }
    }

    /// The credential's presence: present exactly when a non-empty key is
    /// available from configuration — no network probe.  Outside the cloud
    /// mode nothing is required, so nothing is missing.
    pub fn check_presence(&self) -> (r: Presence)
        ensures
            self.mode == Mode::Cloud ==> (r is Present <==> (self.key is Some && self.key->0@.len()
                > 0)),
            self.mode == Mode::Cloud && !(self.key is Some && self.key->0@.len() > 0) ==> r
                is Absent,
            self.mode != Mode::Cloud ==> r is Present,
    {
        if self.mode == Mode::Cloud {
            match &self.key {
                Some(k) => if k.as_str().is_empty() {
                    Presence::Absent
                } else {
                    Presence::Present
                },
                None => Presence::Absent,
            }
        } else {
            Presence::Present
        }
    }

    /// The chat-completions path of the configured endpoint.
    pub fn completions_url(&self) -> (r: String)
        ensures
            r@ == self.url@ + "/v1/chat/completions"@,
    {
        let mut u = self.url.clone();
        u.append("/v1/chat/completions");
        u
    }

    /// The credential cannot be self-remediated: its install action always
    /// fails, telling the user to supply the key through configuration,
    /// rather than attempting the impossible or prompting indefinitely.
    pub fn make_present(&self) -> (r: Result<(), ResourceError>)
        ensures
            r matches Err(e) && e matches ResourceError::ConfigError(m) && m@
                == "the cloud API key cannot be installed; set the key in the configuration"@,
    {
        Err(
            ResourceError::ConfigError(
                String::from_str(
                    "the cloud API key cannot be installed; set the key in the configuration",
                ),
            ),
        )
    }
}

/// The completion model a request names: the one the user asked for, or
/// the default when they asked for none.
pub fn choose_model(requested: Option<String>) -> (m: String)
    ensures
        requested matches Some(v) ==> m == v,
        requested is None ==> m@ == "gpt-3.5-turbo"@,
{
    match requested {
        Some(v) => v,
        None => String::from_str("gpt-3.5-turbo"),
    }
}

} // verus!
