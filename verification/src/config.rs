//! The settings of the running service: set once, read many times.
//!
//! Reading the configuration files is the caller's part. What it read is
//! handed to [`init`], which keeps the first settings it is given and refuses
//! every later attempt.

use crate::model::Settings;
use vstd::prelude::*;

verus! {

/// Why settings were refused.
#[derive(Clone, Copy, Debug, PartialEq, Eq, Structural)]
pub enum ConfigError {
    /// Settings are already in place.
    AlreadyInitialized,
}

/// Whether `r` and `after` are what comes of offering `settings` to `before`:
/// an empty slot takes them, a filled one refuses them and stays as it is.
pub open spec fn is_init_outcome(
    r: Result<(), ConfigError>,
    before: Option<Settings>,
    after: Option<Settings>,
    settings: Settings,
) -> bool {
    match before {
        None => r is Ok && after == Some(settings),
        Some(_) => r is Err && r->Err_0 == ConfigError::AlreadyInitialized && after == before,
    }
}

/// Puts the settings in place, unless some are in place already.
pub fn init(slot: &mut Option<Settings>, settings: Settings) -> (r: Result<(), ConfigError>)
    ensures
        is_init_outcome(r, *old(slot), *final(slot), settings),
{
    if slot.is_some() {
        return Err(ConfigError::AlreadyInitialized);
    }
    *slot = Some(settings);
    Ok(())
}

/// The settings in place.
pub fn get(slot: &Option<Settings>) -> (settings: &Settings)
    requires
        slot is Some,
    ensures
        *settings == slot->Some_0,
{
    slot.as_ref().unwrap()
}

/// Settings stay as first set: after a successful `init`, every further
/// `init` is refused and leaves them unchanged.
pub proof fn lemma_first_settings_stay(
    before: Option<Settings>,
    first: Settings,
    second: Settings,
    r1: Result<(), ConfigError>,
    mid: Option<Settings>,
    r2: Result<(), ConfigError>,
    after: Option<Settings>,
)
    requires
        before is None,
        is_init_outcome(r1, before, mid, first),
        is_init_outcome(r2, mid, after, second),
    ensures
        r1 is Ok,
        r2 is Err,
        after == Some(first),
{
}

} // verus!
