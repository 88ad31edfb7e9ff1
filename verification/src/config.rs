//! The configuration resolver: derives a validated heartbeat configuration
//! from an environment-like key-value source, applying defaults and silently
//! discarding malformed overrides.

use vstd::prelude::*;
use crate::text::{is_blank, is_blank_spec, parse_u64, parse_u64_spec};

verus! {

/// Seconds between pings when no usable override is given.
pub const DEFAULT_INTERVAL_SECS: u64 = 60;

/// Seconds bounding a single ping attempt when no usable override is given.
pub const DEFAULT_TIMEOUT_SECS: u64 = 10;

/// The raw values an environment-like source offers the resolver, each
/// `None` when the corresponding key is unset.
pub struct EnvSource {
    /// The raw ping destination, from `HEARTBEAT_URL`.
    pub url: Option<String>,
    /// The raw interval override, from `HEARTBEAT_INTERVAL_SECS`.
    pub interval_secs: Option<String>,
    /// The raw timeout override, from `HEARTBEAT_TIMEOUT_SECS`.
    pub timeout_secs: Option<String>,
}

/// The character sequence a raw value holds, if the key was set.
pub open spec fn opt_view(o: Option<String>) -> Option<Seq<char>> {
    match o {
        Some(s) => Some(s@),
        None => None,
    }
}

/// An unsigned-integer override resolved against its default: an unset or
/// unparsable value falls back silently, and a zero is accepted as given.
pub open spec fn resolved_override(raw: Option<Seq<char>>, default: u64) -> u64 {
    match raw {
        None => default,
        Some(s) => match parse_u64_spec(s) {
            Some(n) => n,
            None => default,
        },
    }
}

impl EnvSource {
    /// The raw URL value as a character sequence.
    pub open spec fn url_raw(self) -> Option<Seq<char>> {
        opt_view(self.url)
    }

    /// The heartbeat is enabled: the URL key is set and its value does not
    /// trim to nothing.
    pub open spec fn enabled(self) -> bool {
        self.url_raw() matches Some(u) && !is_blank_spec(u)
    }

    /// The interval the resolver yields for this source.
    pub open spec fn interval(self) -> u64 {
        resolved_override(opt_view(self.interval_secs), DEFAULT_INTERVAL_SECS)
    }

    /// The timeout the resolver yields for this source.
    pub open spec fn timeout(self) -> u64 {
        resolved_override(opt_view(self.timeout_secs), DEFAULT_TIMEOUT_SECS)
    }
}

/// A validated heartbeat configuration, created once per spawn and owned by
/// the loop task for its entire lifetime.
#[derive(Debug, Clone)]
pub struct HeartbeatConfig {
    /// The ping destination. Never empty or whitespace-only.
    pub url: String,
    /// Seconds between pings.
    pub interval_secs: u64,
    /// Seconds bounding a single ping attempt.
    pub timeout_secs: u64,
}

impl HeartbeatConfig {
    /// The construction invariant: the URL does not trim to nothing.
    pub open spec fn wf(self) -> bool {
        !is_blank_spec(self.url@)
    }

    /// Derive a configuration from the source. Yields `None` — heartbeat
    /// deliberately disabled, not an error — when the URL is unset, empty,
    /// or whitespace-only; otherwise yields the URL as given, with each
    /// override applied where it parses as an unsigned integer and its
    /// default where it does not.
    pub fn resolve(source: EnvSource) -> (r: Option<HeartbeatConfig>)
        ensures
            r.is_some() == source.enabled(),
            r matches Some(c) ==> {
                &&& c.wf()
                &&& Some(c.url@) == source.url_raw()
                &&& c.interval_secs == source.interval()
                &&& c.timeout_secs == source.timeout()
            },
    {
        let url: String = match source.url {
            Some(u) => u,
            None => {
                return None;
            },
        };
        if is_blank(url.as_str()) {
            return None;
        }
        let interval_secs: u64 = parse_or(source.interval_secs, DEFAULT_INTERVAL_SECS);
        let timeout_secs: u64 = parse_or(source.timeout_secs, DEFAULT_TIMEOUT_SECS);
        Some(HeartbeatConfig { url, interval_secs, timeout_secs })
    }
}

/// Resolve one optional override against its default.
fn parse_or(raw: Option<String>, default: u64) -> (r: u64)
    ensures
        r == resolved_override(opt_view(raw), default),
{
    match raw {
        None => default,
        Some(s) => match parse_u64(s.as_str()) {
            Some(n) => n,
            None => default,
        },
    }
}

/// Decide whether the heartbeat loop is to start. Yields the configuration
/// the loop runs with, or `None` — loop not started — when the source leaves
/// the heartbeat disabled.
pub fn spawn_from_env(source: EnvSource) -> (r: Option<HeartbeatConfig>)
    ensures
        r.is_some() == source.enabled(),
        r matches Some(c) ==> {
            &&& c.wf()
            &&& Some(c.url@) == source.url_raw()
            &&& c.interval_secs == source.interval()
            &&& c.timeout_secs == source.timeout()
        },
{
    HeartbeatConfig::resolve(source)
}

/// Law: a source whose URL key is unset, or set to a value that trims to
/// nothing, leaves the heartbeat disabled: the resolver yields nothing.
pub proof fn lemma_disabled_without_url(source: EnvSource)
    requires
        source.url is None || (source.url matches Some(u) && is_blank_spec(u@)),
    ensures
        !source.enabled(),
{
}

/// Law: with no interval and no timeout override set, the resolver yields
/// the defaults: 60 seconds between pings, 10 seconds per attempt.
pub proof fn lemma_defaults_when_no_overrides(source: EnvSource)
    requires
        source.interval_secs is None,
        source.timeout_secs is None,
    ensures
        source.interval() == DEFAULT_INTERVAL_SECS,
        source.timeout() == DEFAULT_TIMEOUT_SECS,
{
}

/// Law: an interval override that does not parse as an unsigned integer is
/// discarded silently — the resolver yields the default, not an error.
pub proof fn lemma_unparsable_interval_falls_back(source: EnvSource)
    requires
        source.interval_secs matches Some(s) && parse_u64_spec(s@) is None,
    ensures
        source.interval() == DEFAULT_INTERVAL_SECS,
{
}

/// Law: a timeout override that does not parse as an unsigned integer is
/// discarded silently — the resolver yields the default, not an error.
pub proof fn lemma_unparsable_timeout_falls_back(source: EnvSource)
    requires
        source.timeout_secs matches Some(s) && parse_u64_spec(s@) is None,
    ensures
        source.timeout() == DEFAULT_TIMEOUT_SECS,
{
}

} // verus!
