//! Configuration of the process: the listening port and the store's two
//! size limits. The values arrive from the environment as optional plain
//! values; resolving defaults and clamping to the hard ceiling is done
//! here, verified.

use vstd::prelude::*;

verus! {

/// The hard ceiling on both size limits: whatever is requested, neither
/// limit exceeds 256 bytes.
pub const SIZE_LIMIT_CEILING: usize = 256;

/// The port used when none is configured.
pub const DEFAULT_PORT: &'static str = "7171";

/// The settings the process starts with.
pub struct Config {
    pub port: String,
    pub max_key_size: usize,
    pub max_value_size: usize,
}

/// The effective size limit for a requested value: the request itself when
/// within the ceiling, the ceiling when over it or absent.
pub open spec fn clamped_size(requested: Option<usize>) -> usize {
    if requested is Some {
        if requested->0 > SIZE_LIMIT_CEILING {
            SIZE_LIMIT_CEILING
        } else {
            requested->0
        }
    } else {
        SIZE_LIMIT_CEILING
    }
}

/// Whether a requested size limit is over the ceiling, in which case it is
/// clamped and a warning is due.
pub open spec fn size_clamped(requested: Option<usize>) -> bool {
    requested is Some && requested->0 > SIZE_LIMIT_CEILING
}

/// Resolves the configuration from what the environment offered: a missing
/// port falls back to the default, missing or unreadable size limits fall
/// back to the ceiling, and an oversized request is clamped to the ceiling.
/// The two flags say whether the key and the value limit were clamped, so
/// the caller can warn.
pub fn resolve_config(
    port: Option<String>,
    max_key_size: Option<usize>,
    max_value_size: Option<usize>,
) -> (r: (Config, bool, bool))
    ensures
        port is Some ==> r.0.port@ == port->0@,
        port is None ==> r.0.port@ == DEFAULT_PORT@,
        r.0.max_key_size == clamped_size(max_key_size),
        r.0.max_value_size == clamped_size(max_value_size),
        r.1 == size_clamped(max_key_size),
        r.2 == size_clamped(max_value_size),
{
    let port_value = match port {
        Some(p) => p,
        None => DEFAULT_PORT.to_owned(),
    };
    let (key_limit, key_clamped): (usize, bool) = match max_key_size {
        Some(s) => if s > SIZE_LIMIT_CEILING {
            (SIZE_LIMIT_CEILING, true)
        } else {
            (s, false)
        },
        None => (SIZE_LIMIT_CEILING, false),
    };
    let (value_limit, value_clamped): (usize, bool) = match max_value_size {
        Some(s) => if s > SIZE_LIMIT_CEILING {
            (SIZE_LIMIT_CEILING, true)
        } else {
            (s, false)
        },
        None => (SIZE_LIMIT_CEILING, false),
    };
    (
        Config { port: port_value, max_key_size: key_limit, max_value_size: value_limit },
        key_clamped,
        value_clamped,
    )
}

} // verus!
