use vstd::prelude::*;
use vstd::rwlock::{RwLock, RwLockPredicate};

use crate::fill_mode::MAX_FILL_MODE;
use crate::service::start_directory_loop;
use crate::state::RotationConfig;

verus! {

/// What holds of the configuration whenever the lock is free: rotation is
/// only ever on together with a directory to rotate through.
pub struct ConfigInvariant;

impl RwLockPredicate<RotationConfig> for ConfigInvariant {
    open spec fn inv(self, c: RotationConfig) -> bool {
        c@.enabled ==> c@.directory is Some
    }
}

/// The configuration shared by the command handlers and the scheduler.
///
/// Every command replaces the record under the exclusive lock and every
/// reader copies it whole, so no reader sees half of an update. The lock is
/// held only for the copy or the replacement, never across other work.
pub struct SharedConfig {
    lock: RwLock<RotationConfig, ConfigInvariant>,
}

impl SharedConfig {
    /// A shared configuration holding the daemon's starting record.
    pub fn new() -> (r: SharedConfig) {
        SharedConfig { lock: RwLock::new(RotationConfig::new(), Ghost(ConfigInvariant)) }
    }

    /// Starts rotating through `directory`; refused when `fill_mode` names no mode.
    pub fn start_directory_loop(
        &self,
        directory: String,
        screen: u32,
        fill_mode: u8,
        period_secs: u64,
    ) -> (r: bool)
        ensures
            r <==> fill_mode <= MAX_FILL_MODE,
    {
        let (mut config, handle) = self.lock.acquire_write();
        let r = start_directory_loop(&mut config, directory, screen, fill_mode, period_secs);
        handle.release_write(config);
        r
    }

    /// Turns rotation off.
    pub fn stop_loop(&self) -> (r: bool)
        ensures
            r,
    {
        let (mut config, handle) = self.lock.acquire_write();
        let r = config.stop_rotation();
        handle.release_write(config);
        r
    }

    /// A copy of the whole record as it stood at one instant.
    pub fn snapshot(&self) -> (r: RotationConfig)
        ensures
            r@.enabled ==> r@.directory is Some,
    {
        let handle = self.lock.acquire_read();
        let config = handle.borrow().snapshot();
        handle.release_read();
        config
    }
}

} // verus!
