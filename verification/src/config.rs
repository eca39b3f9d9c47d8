//! Broadcaster configuration, resolved once at startup from two environment
//! values handed in as plain text.
//!
//! The channel identifier is required: a missing or unparsable value is a
//! fatal configuration error, since the broadcaster must not start with an
//! ambiguous target.  The tick interval is optional and self-healing: a
//! missing, unparsable or zero value falls back to the default.

use vstd::prelude::*;
use crate::decimal::{all_digits, dec_val, parse_u64};

verus! {

/// Seconds between ticks when no usable interval is configured.
pub const DEFAULT_INTERVAL_SECS: u64 = 600;

/// Immutable per-process configuration of the broadcaster.
#[derive(Clone, Copy, Debug, PartialEq, Eq, Structural)]
pub struct BroadcastConfig {
    /// Identifier of the channel that holds the status message.
    pub channel_id: u64,
    /// Seconds between ticks.
    pub interval_secs: u64,
}

/// Startup failures; each is fatal before the loop begins.
#[derive(Clone, Copy, Debug, PartialEq, Eq, Structural)]
pub enum ConfigError {
    /// The channel identifier was not set at all.
    MissingChannel,
    /// The channel identifier was set but is not a decimal identifier.
    InvalidChannel,
}

/// True when `s` is a usable decimal token: non-empty, all digits, in range.
pub open spec fn parses(s: Seq<char>) -> bool {
    s.len() > 0 && all_digits(s) && dec_val(s) <= u64::MAX
}

/// The interval a raw setting resolves to: the parsed positive value, or the
/// default on a missing, unparsable or zero setting.
pub open spec fn spec_interval(raw: Option<Seq<char>>) -> u64 {
    match raw {
        Some(s) => if parses(s) && dec_val(s) > 0 {
            dec_val(s) as u64
        } else {
            DEFAULT_INTERVAL_SECS
        },
        None => DEFAULT_INTERVAL_SECS,
    }
}

/// Resolves the raw environment values into a configuration.
///
/// Fails exactly when the channel value is absent or not a decimal
/// identifier; the interval never fails, only falls back.
pub fn resolve_config(channel: Option<&str>, interval: Option<&str>) -> (r: Result<
    BroadcastConfig,
    ConfigError,
>)
    ensures
        channel is None ==> r == Err::<BroadcastConfig, ConfigError>(ConfigError::MissingChannel),
        (match channel {
            Some(c) => if parses(c@) {
                r matches Ok(cfg) && cfg.channel_id == dec_val(c@) && cfg.interval_secs
                    == spec_interval(
                    match interval {
                        Some(s) => Some(s@),
                        None => None,
                    },
                )
            } else {
                r == Err::<BroadcastConfig, ConfigError>(ConfigError::InvalidChannel)
            },
            None => true,
        }),
{
    let c = match channel {
        Some(c) => c,
        None => {
            return Err(ConfigError::MissingChannel);
        },
    };
    let channel_id = match parse_u64(c) {
        Some(v) => v,
        None => {
            return Err(ConfigError::InvalidChannel);
        },
    };
    let interval_secs = match interval {
        Some(s) => match parse_u64(s) {
            Some(v) => if v > 0 {
                v
            } else {
                DEFAULT_INTERVAL_SECS
            },
            None => DEFAULT_INTERVAL_SECS,
        },
        None => DEFAULT_INTERVAL_SECS,
    };
    Ok(BroadcastConfig { channel_id, interval_secs })
}

} // verus!
