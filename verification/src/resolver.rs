//! The resolver: it resolves both paths and then leads the host through the
//! creation of the two directories, the configuration directory first.
//!
//! The resolver touches no file system. It names the directory that has to
//! exist next, the host creates it with all its missing ancestors and reports
//! how that went, and the resolver moves on. A directory that exists already
//! counts as created.

use vstd::prelude::*;
use crate::error::{DirectoryResolutionError, Failure};
use crate::inputs::{Environment, Found, Kind, Lookups, APP_DIR};
use crate::path::Platform;
use crate::project_dirs::{Paths, SiliconProjectDirs};
use crate::resolve::{lemma_resolved_is_namespaced, lemma_resolved_is_not_empty};
use crate::resolve::{lookup_needed, outcome, resolvable, resolve_dir, resolved, Lookup};

verus! {

/// How far a resolver has come.
pub enum Progress {
    /// Both paths are known; the configuration directory is to be created.
    ConfigPending(Paths),
    /// The configuration directory exists; the cache directory is to be
    /// created.
    CachePending(Paths),
    /// Both directories exist.
    Ready(Paths),
    /// The resolution has failed, for good.
    Failed(Failure),
}

impl Progress {
    /// Where a resolver starts, given what the resolution of each of the two
    /// directories gave: with both paths or with none. A failure of the cache
    /// directory goes before one of the configuration directory.
    pub open spec fn start(
        cache: Result<Seq<char>, Failure>,
        config: Result<Seq<char>, Failure>,
    ) -> Progress {
        match cache {
            Err(failure) => Progress::Failed(failure),
            Ok(cache_dir) => match config {
                Err(failure) => Progress::Failed(failure),
                Ok(config_dir) => Progress::ConfigPending(Paths { cache_dir, config_dir }),
            },
        }
    }

    /// The directory that the host has to create now, if there is one.
    pub open spec fn pending(self) -> Option<Seq<char>> {
        match self {
            Progress::ConfigPending(paths) => Some(paths.config_dir),
            Progress::CachePending(paths) => Some(paths.cache_dir),
            _ => None,
        }
    }

    /// Where the resolver stands after the host has reported on the pending
    /// directory: `Ok` if it exists now, else the cause. A resolver with no
    /// pending directory stays where it is.
    pub open spec fn step(self, created: Result<(), Seq<char>>) -> Progress {
        match self {
            Progress::ConfigPending(paths) => match created {
                Ok(_) => Progress::CachePending(paths),
                Err(cause) => Progress::Failed(Failure::CreateFailed(paths.config_dir, cause)),
            },
            Progress::CachePending(paths) => match created {
                Ok(_) => Progress::Ready(paths),
                Err(cause) => Progress::Failed(Failure::CreateFailed(paths.cache_dir, cause)),
            },
            _ => self,
        }
    }

    /// What the resolution has come to, once no directory is pending.
    pub open spec fn result(self) -> Option<Result<Paths, Failure>> {
        match self {
            Progress::Ready(paths) => Some(Ok(paths)),
            Progress::Failed(failure) => Some(Err(failure)),
            _ => None,
        }
    }
}

/// What the host's report on a directory stands for in contracts.
pub open spec fn report(created: Result<(), String>) -> Result<(), Seq<char>> {
    match created {
        Ok(_) => Ok(()),
        Err(cause) => Err(cause@),
    }
}

/// What the end of a resolution stands for in contracts.
pub open spec fn conclusion(
    end: Option<Result<SiliconProjectDirs, DirectoryResolutionError>>,
) -> Option<Result<Paths, Failure>> {
    match end {
        Some(Ok(dirs)) => Some(Ok(dirs@)),
        Some(Err(error)) => Some(Err(error@)),
        None => None,
    }
}

#[derive(Debug)]
enum State {
    ConfigPending(SiliconProjectDirs),
    CachePending(SiliconProjectDirs),
    Ready(SiliconProjectDirs),
    Failed(DirectoryResolutionError),
}

/// Resolves the two directories and keeps track of their creation.
#[derive(Debug)]
pub struct Resolver {
    state: State,
}

impl View for Resolver {
    type V = Progress;

    closed spec fn view(&self) -> Progress {
        match self.state {
            State::ConfigPending(dirs) => Progress::ConfigPending(dirs@),
            State::CachePending(dirs) => Progress::CachePending(dirs@),
            State::Ready(dirs) => Progress::Ready(dirs@),
            State::Failed(error) => Progress::Failed(error@),
        }
    }
}

impl Resolver {
    /// Starts from the results of the two resolutions.
    fn begin(
        cache: Result<String, DirectoryResolutionError>,
        config: Result<String, DirectoryResolutionError>,
    ) -> (resolver: Resolver)
        requires
            outcome(cache) matches Ok(path) ==> path.len() > 0,
            outcome(config) matches Ok(path) ==> APP_DIR@.is_suffix_of(path),
        ensures
            resolver@ == Progress::start(outcome(cache), outcome(config)),
    {
        let state = match cache {
            Err(error) => State::Failed(error),
            Ok(cache_dir) => match config {
                Err(error) => State::Failed(error),
                Ok(config_dir) => State::ConfigPending(
                    SiliconProjectDirs::from_paths(cache_dir, config_dir),
                ),
            },
        };
        Resolver { state }
    }

    /// Resolves both paths from what the environment holds and what the
    /// platform answered. No directory has been asked for yet.
    pub fn with_lookups(platform: Platform, env: &Environment, found: &Lookups) -> (resolver:
        Resolver)
        ensures
            resolver@ == Progress::start(
                resolved(platform, Kind::Cache, env@, found@),
                resolved(platform, Kind::Config, env@, found@),
            ),
    {
        let cache = resolve_dir(platform, Kind::Cache, env, found);
        let config = resolve_dir(platform, Kind::Config, env, found);
        proof {
            lemma_resolved_is_not_empty(platform, Kind::Cache, env@, found@);
            lemma_resolved_is_namespaced(platform, Kind::Config, env@, found@);
        }
        Resolver::begin(cache, config)
    }

    /// Resolves both paths, asking the platform where the environment does
    /// not decide alone. No directory has been asked for yet.
    ///
    /// Each path is the one that the policy gives for whatever the platform
    /// answered when it was asked for that path.
    pub fn new(platform: Platform, env: &Environment) -> (resolver: Resolver)
        ensures
            exists|cache: Result<Seq<char>, Failure>, config: Result<Seq<char>, Failure>|
                {
                    &&& resolvable(platform, Kind::Cache, env@, cache)
                    &&& resolvable(platform, Kind::Config, env@, config)
                    &&& resolver@ == #[trigger] Progress::start(cache, config)
                },
            lookup_needed(platform, Kind::Cache, env@) == Lookup::Nothing && lookup_needed(
                platform,
                Kind::Config,
                env@,
            ) == Lookup::Nothing ==> resolver@ == Progress::start(
                resolved(platform, Kind::Cache, env@, Found::nothing()),
                resolved(platform, Kind::Config, env@, Found::nothing()),
            ),
    {
        match SiliconProjectDirs::get_cache_dir(platform, env) {
            Ok(cache_dir) => {
                let config = SiliconProjectDirs::get_config_dir(platform, env);
                Resolver::begin(Ok(cache_dir), config)
            },
            Err(error) => {
                proof {
                    // The configuration directory is not looked up; any of
                    // its resolutions leads to the same failure.
                    let unread = resolved(platform, Kind::Config, env@, Found::nothing());
                    assert(resolvable(platform, Kind::Config, env@, unread));
                    assert(Progress::Failed(error@) == Progress::start(Err(error@), unread));
                }
                Resolver { state: State::Failed(error) }
            },
        }
    }

    /// The directory that the host has to create now, with all its missing
    /// ancestors; `None` once the resolution has come to its end.
    pub fn pending(&self) -> (dir: Option<&str>)
        ensures
            dir.deep_view() == self@.pending(),
    {
        match &self.state {
            State::ConfigPending(dirs) => Some(dirs.config_dir()),
            State::CachePending(dirs) => Some(dirs.cache_dir()),
            _ => None,
        }
    }

    /// Takes the host's report on the pending directory: `Ok` if the
    /// directory exists now, else the cause for which it could not be
    /// created.
    pub fn step(self, created: Result<(), String>) -> (next: Resolver)
        ensures
            next@ == self@.step(report(created)),
    {
        let state = match self.state {
            State::ConfigPending(dirs) => match created {
                Ok(_) => State::CachePending(dirs),
                Err(cause) => State::Failed(
                    DirectoryResolutionError::CreateFailed(
                        String::from_str(dirs.config_dir()),
                        cause,
                    ),
                ),
            },
            State::CachePending(dirs) => match created {
                Ok(_) => State::Ready(dirs),
                Err(cause) => State::Failed(
                    DirectoryResolutionError::CreateFailed(
                        String::from_str(dirs.cache_dir()),
                        cause,
                    ),
                ),
            },
            other => other,
        };
        Resolver { state }
    }

    /// The end of the resolution: the two directories or the failure; `None`
    /// while a directory is pending.
    pub fn finish(self) -> (end: Option<Result<SiliconProjectDirs, DirectoryResolutionError>>)
        ensures
            conclusion(end) == self@.result(),
            end matches Some(Ok(dirs)) ==> dirs@.well_formed(),
    {
        match self.state {
            State::Ready(dirs) => {
                proof {
                    use_type_invariant(&dirs);
                }
                Some(Ok(dirs))
            },
            State::Failed(error) => Some(Err(error)),
            _ => None,
        }
    }
}

/// A resolution that fails before any directory is asked for asks for none:
/// where the cache directory or the configuration directory cannot be
/// resolved, nothing is pending and the failure is the end.
pub proof fn lemma_failed_start_asks_for_nothing(
    cache: Result<Seq<char>, Failure>,
    config: Result<Seq<char>, Failure>,
)
    requires
        cache is Err || config is Err,
    ensures
        Progress::start(cache, config).pending() is None,
        Progress::start(cache, config).result() == Some(
            Err::<Paths, Failure>(
                if cache is Err {
                    cache->Err_0
                } else {
                    config->Err_0
                },
            ),
        ),
{
}

/// Where both paths resolve, the configuration directory is asked for first
/// and the cache directory second.
pub proof fn lemma_config_dir_goes_first(cache_dir: Seq<char>, config_dir: Seq<char>)
    ensures
        Progress::start(Ok(cache_dir), Ok(config_dir)).pending() == Some(config_dir),
        Progress::start(Ok(cache_dir), Ok(config_dir)).step(Ok(())).pending() == Some(cache_dir),
{
}

/// Where both paths resolve and the host reports both directories as
/// existing, the resolution ends with exactly the two resolved paths. This
/// holds of every run, so of a second one that finds the directories of the
/// first.
pub proof fn lemma_created_twice_is_ready(cache_dir: Seq<char>, config_dir: Seq<char>)
    ensures
        Progress::start(Ok(cache_dir), Ok(config_dir)).step(Ok(())).step(Ok(())).result() == Some(
            Ok::<Paths, Failure>(Paths { cache_dir, config_dir }),
        ),
{
}

/// A directory that cannot be created ends the resolution with
/// `CreateFailed`, which holds the path of that directory and the cause; no
/// further directory is asked for.
pub proof fn lemma_refusal_ends_resolution(progress: Progress, cause: Seq<char>)
    requires
        progress.pending() is Some,
    ensures
        progress.step(Err(cause)) == Progress::Failed(
            Failure::CreateFailed(progress.pending()->0, cause),
        ),
        progress.step(Err(cause)).pending() is None,
{
}

/// The end is final: once nothing is pending, no report changes the
/// resolver.
pub proof fn lemma_end_is_final(progress: Progress, created: Result<(), Seq<char>>)
    requires
        progress.pending() is None,
    ensures
        progress.step(created) == progress,
        progress.result() is Some,
{
}

/// Every resolution ends after two reports at most.
pub proof fn lemma_two_reports_suffice(
    progress: Progress,
    first: Result<(), Seq<char>>,
    second: Result<(), Seq<char>>,
)
    ensures
        progress.step(first).step(second).pending() is None,
{
}

} // verus!
