//! The resolution policy: from the platform family, the environment and the
//! platform's lookups to the path of one directory.
//!
//! For each kind of directory the policy is an ordered chain. An override
//! from the environment comes first, and only the cache has one. On the macOS
//! family the XDG variable follows, if it holds an absolute path, and then
//! the dot directory below the home directory. On every other platform the
//! platform's own base directory is taken. Whatever base was found gets the
//! application's directory joined to it; an override is taken as it is.

use vstd::prelude::*;
use crate::error::{DirectoryResolutionError, Failure};
use crate::inputs::{Environment, Found, Kind, Lookups, Variables, APP_DIR};
use crate::lookup;
use crate::path::{absolute, join, joined, Platform};
use crate::path::{lemma_joined_absolute, lemma_joined_frames};

verus! {

/// The lookup that a resolution reads.
#[derive(Clone, Copy, PartialEq, Eq, Debug)]
pub enum Lookup {
    /// The environment decides alone.
    Nothing,
    /// The home directory.
    HomeDir,
    /// The platform's own base directory for the kind that is asked for.
    NativeDir,
}

/// The lookup on which the resolution of a directory depends.
pub open spec fn lookup_needed(platform: Platform, kind: Kind, vars: Variables) -> Lookup {
    if vars.override_for(kind) is Some {
        Lookup::Nothing
    } else if platform is MacOs {
        if vars.xdg_base(kind) is Some {
            Lookup::Nothing
        } else {
            Lookup::HomeDir
        }
    } else {
        Lookup::NativeDir
    }
}

/// The base directory by the platform's convention, the override left aside.
pub open spec fn base_dir(platform: Platform, kind: Kind, vars: Variables, found: Found) -> Result<
    Seq<char>,
    Failure,
> {
    if platform is MacOs {
        match vars.xdg_base(kind) {
            Some(base) => Ok(base),
            None => match found.home_dir {
                Some(home) => Ok(joined(platform, home, kind.dot_dir())),
                None => Err(Failure::HomeUnknown),
            },
        }
    } else {
        match found.native(kind) {
            Some(base) => Ok(base),
            None => Err(Failure::PlatformDirsUnavailable),
        }
    }
}

/// The directory of the given kind: the override where there is one, else the
/// application's directory below the base directory.
pub open spec fn resolved(platform: Platform, kind: Kind, vars: Variables, found: Found) -> Result<
    Seq<char>,
    Failure,
> {
    match vars.override_for(kind) {
        Some(path) => Ok(path),
        None => match base_dir(platform, kind, vars, found) {
            Ok(base) => Ok(joined(platform, base, APP_DIR@)),
            Err(failure) => Err(failure),
        },
    }
}

/// What the result of a resolution stands for in contracts.
pub open spec fn outcome(result: Result<String, DirectoryResolutionError>) -> Result<
    Seq<char>,
    Failure,
> {
    match result {
        Ok(path) => Ok(path@),
        Err(error) => Err(error@),
    }
}

/// Decides which lookup the resolution of a directory reads.
pub fn decide_lookup(platform: Platform, kind: Kind, env: &Environment) -> (need: Lookup)
    ensures
        need == lookup_needed(platform, kind, env@),
{
    if env.override_for(kind).is_some() {
        Lookup::Nothing
    } else {
        match platform {
            Platform::MacOs => if env.xdg_base(kind).is_some() {
                Lookup::Nothing
            } else {
                Lookup::HomeDir
            },
            _ => Lookup::NativeDir,
        }
    }
}

/// Resolves the directory of the given kind from what the environment holds
/// and what the platform answered.
pub fn resolve_dir(platform: Platform, kind: Kind, env: &Environment, found: &Lookups) -> (result:
    Result<String, DirectoryResolutionError>)
    ensures
        outcome(result) == resolved(platform, kind, env@, found@),
{
    if let Some(path) = env.override_for(kind) {
        return Ok(path.clone());
    }
    let base: String = match platform {
        Platform::MacOs => match env.xdg_base(kind) {
            Some(base) => base.clone(),
            None => match &found.home_dir {
                Some(home) => join(platform, home.as_str(), kind.dot_dir_name()),
                None => { return Err(DirectoryResolutionError::HomeUnknown); },
            },
        },
        _ => {
            let native: &Option<String> = match kind {
                Kind::Cache => &found.cache_dir,
                Kind::Config => &found.config_dir,
            };
            match native {
                Some(base) => base.clone(),
                None => { return Err(DirectoryResolutionError::PlatformDirsUnavailable); },
            }
        },
    };
    Ok(join(platform, base.as_str(), APP_DIR))
}

/// Asks the platform for the one answer that the resolution of a directory
/// reads, and for no other.
pub fn ask_platform(platform: Platform, kind: Kind, env: &Environment) -> (found: Lookups)
    ensures
        found@.home_dir is Some ==> lookup_needed(platform, kind, env@) == Lookup::HomeDir,
        found@.cache_dir is Some ==> lookup_needed(platform, kind, env@) == Lookup::NativeDir
            && kind == Kind::Cache,
        found@.config_dir is Some ==> lookup_needed(platform, kind, env@) == Lookup::NativeDir
            && kind == Kind::Config,
{
    let mut found = Lookups { home_dir: None, cache_dir: None, config_dir: None };
    match decide_lookup(platform, kind, env) {
        Lookup::Nothing => {},
        Lookup::HomeDir => {
            found.home_dir = lookup::home_dir();
        },
        Lookup::NativeDir => match kind {
            Kind::Cache => {
                found.cache_dir = lookup::cache_dir();
            },
            Kind::Config => {
                found.config_dir = lookup::config_dir();
            },
        },
    }
    found
}

/// Whether `result` is what the resolution gives for some answer of the
/// platform.
pub open spec fn resolvable(
    platform: Platform,
    kind: Kind,
    vars: Variables,
    result: Result<Seq<char>, Failure>,
) -> bool {
    exists|found: Found| result == #[trigger] resolved(platform, kind, vars, found)
}

/// Resolves the directory of the given kind, asking the platform where the
/// environment does not decide alone.
///
/// Where it does, the result is fixed by the arguments. Elsewhere the result
/// is the one that the policy gives for whatever the platform answered.
pub fn get_dir(platform: Platform, kind: Kind, env: &Environment) -> (result: Result<
    String,
    DirectoryResolutionError,
>)
    ensures
        resolvable(platform, kind, env@, outcome(result)),
        lookup_needed(platform, kind, env@) == Lookup::Nothing ==> outcome(result) == resolved(
            platform,
            kind,
            env@,
            Found::nothing(),
        ),
        outcome(result) matches Ok(path) ==> path.len() > 0,
        env@.override_for(kind) is None ==> (outcome(result) matches Ok(path)
            ==> APP_DIR@.is_suffix_of(path)),
{
    let found = ask_platform(platform, kind, env);
    let result = resolve_dir(platform, kind, env, &found);
    proof {
        lemma_resolved_is_not_empty(platform, kind, env@, found@);
        if env@.override_for(kind) is None {
            lemma_resolved_is_namespaced(platform, kind, env@, found@);
        }
    }
    result
}

/// The answer that a resolution reads, out of all that the platform gave.
pub open spec fn answer_read(platform: Platform, kind: Kind, vars: Variables, found: Found)
    -> Option<Seq<char>> {
    match lookup_needed(platform, kind, vars) {
        Lookup::Nothing => None,
        Lookup::HomeDir => found.home_dir,
        Lookup::NativeDir => found.native(kind),
    }
}

/// The cache path override wins on every platform: a cache path variable
/// that is set to a text that is not empty is the cache directory, exactly
/// and with nothing joined to it, whatever the other variables hold and
/// whatever the platform answers.
pub proof fn lemma_override_wins(
    platform: Platform,
    vars: Variables,
    found: Found,
    path: Seq<char>,
)
    requires
        vars.cache_path == Some(path),
        path.len() > 0,
    ensures
        resolved(platform, Kind::Cache, vars, found) == Ok::<Seq<char>, Failure>(path),
{
}

/// The configuration directory has no override: the cache path variable has
/// no part in it.
pub proof fn lemma_config_has_no_override(
    platform: Platform,
    vars: Variables,
    found: Found,
    other: Option<Seq<char>>,
)
    ensures
        resolved(platform, Kind::Config, vars, found) == resolved(
            platform,
            Kind::Config,
            Variables { cache_path: other, ..vars },
            found,
        ),
{
}

/// An XDG variable that holds a relative path counts as not set.
pub proof fn lemma_relative_xdg_is_ignored(
    platform: Platform,
    kind: Kind,
    vars: Variables,
    found: Found,
)
    requires
        vars.xdg_home(kind) matches Some(path) && !absolute(path),
    ensures
        resolved(platform, kind, vars, found) == resolved(
            platform,
            kind,
            vars.without_xdg(kind),
            found,
        ),
{
}

/// The XDG variables are read on the macOS family only.
pub proof fn lemma_xdg_is_read_on_macos_only(
    platform: Platform,
    kind: Kind,
    vars: Variables,
    found: Found,
)
    requires
        !(platform is MacOs),
    ensures
        resolved(platform, kind, vars, found) == resolved(
            platform,
            kind,
            vars.without_xdg(kind),
            found,
        ),
{
}

/// On the macOS family, where no override applies, an XDG variable that
/// holds an absolute path is the base: the directory is the application's
/// directory below it, whatever the platform answers.
pub proof fn lemma_absolute_xdg_is_base(kind: Kind, vars: Variables, found: Found, base: Seq<char>)
    requires
        vars.override_for(kind) is None,
        vars.xdg_home(kind) == Some(base),
        absolute(base),
    ensures
        resolved(Platform::MacOs, kind, vars, found) == Ok::<Seq<char>, Failure>(
            joined(Platform::MacOs, base, APP_DIR@),
        ),
{
}

/// On the macOS family, where neither an override nor an XDG base applies,
/// the directory lies below the dot directory of the home directory, and the
/// resolution fails with `HomeUnknown` where the home directory is not known.
pub proof fn lemma_home_fallback(kind: Kind, vars: Variables, found: Found)
    requires
        vars.override_for(kind) is None,
        vars.xdg_base(kind) is None,
    ensures
        resolved(Platform::MacOs, kind, vars, found) == match found.home_dir {
            Some(home) => Ok::<Seq<char>, Failure>(
                joined(
                    Platform::MacOs,
                    joined(Platform::MacOs, home, kind.dot_dir()),
                    APP_DIR@,
                ),
            ),
            None => Err(Failure::HomeUnknown),
        },
{
}

/// On every platform but the macOS family, where no override applies, the
/// directory lies below the platform's own base directory, and the
/// resolution fails with `PlatformDirsUnavailable` where the platform names
/// none.
pub proof fn lemma_native_base(platform: Platform, kind: Kind, vars: Variables, found: Found)
    requires
        !(platform is MacOs),
        vars.override_for(kind) is None,
    ensures
        resolved(platform, kind, vars, found) == match found.native(kind) {
            Some(base) => Ok::<Seq<char>, Failure>(joined(platform, base, APP_DIR@)),
            None => Err(Failure::PlatformDirsUnavailable),
        },
{
}

/// A directory that no override names ends with the application's directory
/// name.
pub proof fn lemma_resolved_is_namespaced(
    platform: Platform,
    kind: Kind,
    vars: Variables,
    found: Found,
)
    requires
        vars.override_for(kind) is None,
    ensures
        resolved(platform, kind, vars, found) matches Ok(path) ==> APP_DIR@.is_suffix_of(path),
{
    if let Ok(base) = base_dir(platform, kind, vars, found) {
        lemma_joined_frames(platform, base, APP_DIR@);
    }
}

/// No resolved directory is the empty path.
pub proof fn lemma_resolved_is_not_empty(
    platform: Platform,
    kind: Kind,
    vars: Variables,
    found: Found,
)
    ensures
        resolved(platform, kind, vars, found) matches Ok(path) ==> path.len() > 0,
{
    reveal_strlit("silicon");
    if vars.override_for(kind) is None {
        lemma_resolved_is_namespaced(platform, kind, vars, found);
    }
}

/// A resolution reads the one answer that [`lookup_needed`] names: two sets
/// of answers that agree on it give the same directory.
pub proof fn lemma_reads_one_answer(
    platform: Platform,
    kind: Kind,
    vars: Variables,
    found: Found,
    other: Found,
)
    requires
        answer_read(platform, kind, vars, found) == answer_read(platform, kind, vars, other),
    ensures
        resolved(platform, kind, vars, found) == resolved(platform, kind, vars, other),
{
}

/// A resolution succeeds exactly when the environment decides alone or the
/// answer that it reads is there. It fails with `HomeUnknown` on the macOS
/// family and with `PlatformDirsUnavailable` elsewhere.
pub proof fn lemma_resolved_fails_without_answer(
    platform: Platform,
    kind: Kind,
    vars: Variables,
    found: Found,
)
    ensures
        resolved(platform, kind, vars, found) is Err <==> lookup_needed(platform, kind, vars)
            != Lookup::Nothing && answer_read(platform, kind, vars, found) is None,
        resolved(platform, kind, vars, found) matches Err(failure) ==> failure == (if platform
            is MacOs {
            Failure::HomeUnknown
        } else {
            Failure::PlatformDirsUnavailable
        }),
{
}

/// Absolute paths in, an absolute path out: where the override, if there is
/// one, and the answer that the resolution reads, if there is one, begin with
/// `/`, so does the directory.
pub proof fn lemma_resolved_is_absolute(
    platform: Platform,
    kind: Kind,
    vars: Variables,
    found: Found,
)
    requires
        vars.override_for(kind) matches Some(path) ==> absolute(path),
        answer_read(platform, kind, vars, found) matches Some(path) ==> absolute(path),
    ensures
        resolved(platform, kind, vars, found) matches Ok(path) ==> absolute(path),
{
    if vars.override_for(kind) is None {
        if let Ok(base) = base_dir(platform, kind, vars, found) {
            if platform is MacOs && vars.xdg_base(kind) is None {
                lemma_joined_absolute(platform, found.home_dir->0, kind.dot_dir());
            }
            lemma_joined_absolute(platform, base, APP_DIR@);
        }
    }
}

} // verus!
