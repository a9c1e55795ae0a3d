//! The proxy's configuration, its defaults, and the command-line overrides.

use vstd::prelude::*;

verus! {

/// How the proxy is set up: the port it listens on, the language-model
/// provider it forwards to, where governance artifacts live, and how it
/// streams, keeps conversations and fails.
#[derive(Debug, Clone)]
pub struct ProxyConfig {
    pub port: u16,
    pub provider: String,
    pub profile_dir: Option<String>,
    pub log_level: Option<String>,
    pub streaming_mode: String,
    pub multi_turn: bool,
    pub fallback: String,
}

/// The port used when none is configured.
pub fn default_port() -> (r: u16)
    ensures
        r == 8901,
{
    8901
}

/// The provider used when none is configured.
pub fn default_provider() -> (r: String)
    ensures
        r@ == "openai"@,
{
    "openai".to_owned()
}

/// The streaming mode used when none is configured.
pub fn default_streaming_mode() -> (r: String)
    ensures
        r@ == "buffer"@,
{
    "buffer".to_owned()
}

/// The failure behaviour used when none is configured.
pub fn default_fallback() -> (r: String)
    ensures
        r@ == "fail_closed"@,
{
    "fail_closed".to_owned()
}

/// Whether `c` is the configuration used when nothing is configured.
pub open spec fn is_default_config(c: ProxyConfig) -> bool {
    &&& c.port == 8901
    &&& c.provider@ == "openai"@
    &&& c.profile_dir is None
    &&& c.log_level is None
    &&& c.streaming_mode@ == "buffer"@
    &&& !c.multi_turn
    &&& c.fallback@ == "fail_closed"@
}

impl Default for ProxyConfig {
    fn default() -> (r: Self)
        ensures
            is_default_config(r),
    {
        ProxyConfig {
            port: default_port(),
            provider: default_provider(),
            profile_dir: None,
            log_level: None,
            streaming_mode: default_streaming_mode(),
            multi_turn: false,
            fallback: default_fallback(),
        }
    }
}

impl ProxyConfig {
    /// Replaces the port when one is given; nothing else changes.
    pub fn apply_override_port(&mut self, port: Option<u16>)
        ensures
            *final(self) == (ProxyConfig {
                port: match port {
                    Some(p) => p,
                    None => old(self).port,
                },
                ..*old(self)
            }),
    {
        if let Some(p) = port {
            self.port = p;
        }
    }

    /// Replaces the provider when one is given; nothing else changes.
    pub fn apply_override_provider(&mut self, provider: Option<String>)
        ensures
            *final(self) == (ProxyConfig {
                provider: match provider {
                    Some(p) => p,
                    None => old(self).provider,
                },
                ..*old(self)
            }),
    {
        if let Some(p) = provider {
            self.provider = p;
        }
    }

    /// Replaces the profile directory when one is given; nothing else changes.
    pub fn apply_override_profile_dir(&mut self, dir: Option<String>)
        ensures
            *final(self) == (ProxyConfig {
                profile_dir: if dir is Some {
                    dir
                } else {
                    old(self).profile_dir
                },
                ..*old(self)
            }),
    {
        if dir.is_some() {
            self.profile_dir = dir;
        }
    }
}

} // verus!
