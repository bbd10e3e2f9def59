//! The two directories of the application, once both exist.

use vstd::prelude::*;
use crate::error::{DirectoryResolutionError, Failure};
use crate::inputs::{Environment, Found, Kind, APP_DIR};
use crate::path::Platform;
use crate::resolve::{get_dir, lookup_needed, outcome, resolvable, resolved, Lookup};

verus! {

/// The cache directory and the configuration directory of the application.
///
/// The paths can be read and never changed. A value is handed out only by a
/// [`Resolver`](crate::resolver::Resolver) that was told that both
/// directories were created, and its paths are always well formed (see
/// [`Paths::well_formed`]).
#[derive(PartialEq, Eq, Debug)]
pub struct SiliconProjectDirs {
    cache_dir: String,
    config_dir: String,
}

/// What a [`SiliconProjectDirs`] stands for in contracts.
pub struct Paths {
    pub cache_dir: Seq<char>,
    pub config_dir: Seq<char>,
}

impl Paths {
    /// What holds of every pair of resolved paths: the configuration
    /// directory bears the application's name, and the cache directory, which
    /// an override may place anywhere, is at least not the empty path.
    pub open spec fn well_formed(self) -> bool {
        &&& self.cache_dir.len() > 0
        &&& APP_DIR@.is_suffix_of(self.config_dir)
    }
}

impl View for SiliconProjectDirs {
    type V = Paths;

    closed spec fn view(&self) -> Paths {
        Paths { cache_dir: self.cache_dir@, config_dir: self.config_dir@ }
    }
}

impl Clone for SiliconProjectDirs {
    fn clone(&self) -> (copy: SiliconProjectDirs)
        ensures
            copy@ == self@,
    {
        proof {
            use_type_invariant(self);
        }
        SiliconProjectDirs {
            cache_dir: self.cache_dir.clone(),
            config_dir: self.config_dir.clone(),
        }
    }
}

impl SiliconProjectDirs {
    #[verifier::type_invariant]
    pub(crate) open spec fn inv(self) -> bool {
        self@.well_formed()
    }

    /// Holds the two paths together.
    pub(crate) fn from_paths(cache_dir: String, config_dir: String) -> (dirs: SiliconProjectDirs)
        requires
            (Paths { cache_dir: cache_dir@, config_dir: config_dir@ }).well_formed(),
        ensures
            dirs@ == (Paths { cache_dir: cache_dir@, config_dir: config_dir@ }),
    {
        SiliconProjectDirs { cache_dir, config_dir }
    }

    /// The path of the cache directory. It is never empty.
    pub fn cache_dir(&self) -> (path: &str)
        ensures
            path@ == self@.cache_dir,
            self@.well_formed(),
    {
        proof {
            use_type_invariant(self);
        }
        self.cache_dir.as_str()
    }

    /// The path of the configuration directory. It ends with the
    /// application's directory name.
    pub fn config_dir(&self) -> (path: &str)
        ensures
            path@ == self@.config_dir,
            self@.well_formed(),
    {
        proof {
            use_type_invariant(self);
        }
        self.config_dir.as_str()
    }

    /// Resolves the cache directory, asking the platform where the
    /// environment does not decide alone. An override is returned as it is.
    pub fn get_cache_dir(platform: Platform, env: &Environment) -> (result: Result<
        String,
        DirectoryResolutionError,
    >)
        ensures
            env@.override_for(Kind::Cache) matches Some(path) ==> outcome(result) == Ok::<
                Seq<char>,
                Failure,
            >(path),
            resolvable(platform, Kind::Cache, env@, outcome(result)),
            lookup_needed(platform, Kind::Cache, env@) == Lookup::Nothing ==> outcome(result)
                == resolved(platform, Kind::Cache, env@, Found::nothing()),
            outcome(result) matches Ok(path) ==> path.len() > 0,
    {
        get_dir(platform, Kind::Cache, env)
    }

    /// Resolves the configuration directory, asking the platform where the
    /// environment does not decide alone.
    pub fn get_config_dir(platform: Platform, env: &Environment) -> (result: Result<
        String,
        DirectoryResolutionError,
    >)
        ensures
            resolvable(platform, Kind::Config, env@, outcome(result)),
            lookup_needed(platform, Kind::Config, env@) == Lookup::Nothing ==> outcome(result)
                == resolved(platform, Kind::Config, env@, Found::nothing()),
            outcome(result) matches Ok(path) ==> APP_DIR@.is_suffix_of(path),
    {
        get_dir(platform, Kind::Config, env)
    }
}

} // verus!
