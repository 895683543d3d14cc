//! Process-wide configuration, passed explicitly.
//!
//! The settings record is initialized once at process start and only read
//! afterwards. It lives in a write-once slot that callers hand to whatever
//! component needs it at construction time; there is no hidden global.

use vstd::prelude::*;

verus! {

/// The process settings: broker address, database locations, persistence
/// cadence. A plain record; this core never reads it itself.
#[derive(Debug, Clone, PartialEq)]
pub struct Settings {
    pub brokers: String,
    pub prover_cluster_db: String,
    pub rollup_state_manager_db: String,
    pub persist_every_n_block: u64,
}

/// A write-once slot holding the settings after initialization.
pub struct SettingsSlot {
    pub slot: Option<Settings>,
}

impl SettingsSlot {
    pub fn new() -> (r: Self)
        ensures
            r.slot is None,
    {
        SettingsSlot { slot: None }
    }
}

impl Settings {
    /// Stores the settings into an empty slot. Filling an already-full slot
    /// is a caller error (the process would halt on it) and is excluded.
    pub fn set(slot: &mut SettingsSlot, settings: Self)
        requires
            old(slot).slot is None,
        ensures
            final(slot).slot == Some(settings),
    {
        slot.slot = Some(settings);
    }

    /// Reads the settings from a filled slot. Reading before initialization
    /// is a caller error (the process would halt on it) and is excluded.
    pub fn get(slot: &SettingsSlot) -> (r: &Settings)
        requires
            slot.slot is Some,
        ensures
            slot.slot == Some(*r),
    {
        match &slot.slot {
            Some(s) => s,
            None => vstd::pervasive::unreached(),
        }
    }
}

} // verus!
