//! The simulator's own files, as far as the application touches them.

use crate::settings::AppSettings;
use vstd::prelude::*;

verus! {

/// What went wrong with the simulator's directory.
#[derive(Clone, Copy, Debug, PartialEq, Eq, Structural)]
pub enum SimError {
    /// The community folder has no directory two levels above it.
    SimDirectoryNotFound,
    RollingCacheNotFound,
    SceneryIndexesNotFound,
}

/// What is to be removed from the simulator's directory.
#[derive(Clone, Copy, Debug, PartialEq, Eq, Structural)]
pub enum SimCleanup {
    /// The file of the rolling cache.
    RollingCache,
    /// The directory of the scenery indexes, with all that is in it.
    SceneryIndexes,
}

/// Access to the simulator that belongs to one set of settings.
pub struct SimManager<'a> {
    settings: &'a AppSettings,
}

impl<'a> SimManager<'a> {
    /// The settings that the manager was made for.
    pub closed spec fn settings(&self) -> &'a AppSettings {
        self.settings
    }

    /// A manager for the simulator that `settings` point at.
    pub fn new(settings: &'a AppSettings) -> (manager: SimManager<'a>)
        ensures
            manager.settings() == settings,
    {
        Self { settings }
    }

    /// The directory in which the simulator's directory is looked for: the
    /// community folder of the settings, two levels below it.
    pub fn community_dir(&self) -> (dir: &'a str)
        ensures
            dir@ == self.settings().community_dir@,
    {
        self.settings.community_dir.as_str()
    }

    /// Decides whether the rolling cache can be cleared: the simulator's
    /// directory must have been found, and the cache file in it.
    pub fn clear_rolling_cache(&self, sim_dir_found: bool, cache_found: bool) -> (r: Result<
        SimCleanup,
        SimError,
    >)
        ensures
            !sim_dir_found ==> r == Err::<SimCleanup, SimError>(SimError::SimDirectoryNotFound),
            sim_dir_found && !cache_found ==> r == Err::<SimCleanup, SimError>(
                SimError::RollingCacheNotFound,
            ),
            sim_dir_found && cache_found ==> r == Ok::<SimCleanup, SimError>(
                SimCleanup::RollingCache,
            ),
    {
        if !sim_dir_found {
            return Err(SimError::SimDirectoryNotFound);
        }
        if !cache_found {
            return Err(SimError::RollingCacheNotFound);
        }
        Ok(SimCleanup::RollingCache)
    }

    /// Decides whether the scenery indexes can be cleared: the simulator's
    /// directory must have been found, and the directory of the indexes in it.
    pub fn clear_scenery_indexes(&self, sim_dir_found: bool, indexes_found: bool) -> (r: Result<
        SimCleanup,
        SimError,
    >)
        ensures
            !sim_dir_found ==> r == Err::<SimCleanup, SimError>(SimError::SimDirectoryNotFound),
            sim_dir_found && !indexes_found ==> r == Err::<SimCleanup, SimError>(
                SimError::SceneryIndexesNotFound,
            ),
            sim_dir_found && indexes_found ==> r == Ok::<SimCleanup, SimError>(
                SimCleanup::SceneryIndexes,
            ),
    {
        if !sim_dir_found {
            return Err(SimError::SimDirectoryNotFound);
        }
        if !indexes_found {
            return Err(SimError::SceneryIndexesNotFound);
        }
        Ok(SimCleanup::SceneryIndexes)
    }
}

} // verus!
