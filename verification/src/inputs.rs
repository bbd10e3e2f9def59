//! What a resolution is given: the names that the policy fixes, the values
//! of the three environment variables, and the answers of the platform.

use vstd::prelude::*;
use crate::path::{absolute, is_absolute};

verus! {

/// The name of the directory that is joined to every base, so that the
/// application shares no directory with another one.
pub const APP_DIR: &'static str = "silicon";

/// The variable that overrides the cache directory on every platform.
pub const CACHE_PATH_VAR: &'static str = "SILICON_CACHE_PATH";

/// The variable that names the base for caches on the macOS family.
pub const XDG_CACHE_HOME_VAR: &'static str = "XDG_CACHE_HOME";

/// The variable that names the base for configuration on the macOS family.
pub const XDG_CONFIG_HOME_VAR: &'static str = "XDG_CONFIG_HOME";

/// Which of the two directories is asked for.
#[derive(Clone, Copy, PartialEq, Eq, Debug)]
pub enum Kind {
    Cache,
    Config,
}

impl Kind {
    /// The directory below the home directory that serves as the base on the
    /// macOS family.
    pub open spec fn dot_dir(self) -> Seq<char> {
        match self {
            Kind::Cache => ".cache"@,
            Kind::Config => ".config"@,
        }
    }

    /// Executable form of [`Kind::dot_dir`].
    pub fn dot_dir_name(self) -> (name: &'static str)
        ensures
            name@ == self.dot_dir(),
    {
        match self {
            Kind::Cache => ".cache",
            Kind::Config => ".config",
        }
    }
}

/// The values of the three environment variables, each `None` where the
/// variable is not set.
#[derive(PartialEq, Eq, Debug)]
pub struct Environment {
    /// The value of [`CACHE_PATH_VAR`].
    pub cache_path: Option<String>,
    /// The value of [`XDG_CACHE_HOME_VAR`].
    pub xdg_cache_home: Option<String>,
    /// The value of [`XDG_CONFIG_HOME_VAR`].
    pub xdg_config_home: Option<String>,
}

/// What an [`Environment`] stands for in contracts.
pub struct Variables {
    pub cache_path: Option<Seq<char>>,
    pub xdg_cache_home: Option<Seq<char>>,
    pub xdg_config_home: Option<Seq<char>>,
}

impl View for Environment {
    type V = Variables;

    open spec fn view(&self) -> Variables {
        Variables {
            cache_path: self.cache_path.deep_view(),
            xdg_cache_home: self.xdg_cache_home.deep_view(),
            xdg_config_home: self.xdg_config_home.deep_view(),
        }
    }
}

impl Clone for Environment {
    fn clone(&self) -> (copy: Environment)
        ensures
            copy@ == self@,
    {
        Environment {
            cache_path: self.cache_path.clone(),
            xdg_cache_home: self.xdg_cache_home.clone(),
            xdg_config_home: self.xdg_config_home.clone(),
        }
    }
}

impl Variables {
    /// The override for a directory of the given kind. Only the cache has
    /// one, and a variable that is set to the empty text counts as not set.
    pub open spec fn override_for(self, kind: Kind) -> Option<Seq<char>> {
        match kind {
            Kind::Cache => match self.cache_path {
                Some(path) => if path.len() > 0 {
                    Some(path)
                } else {
                    None
                },
                None => None,
            },
            Kind::Config => None,
        }
    }

    /// The XDG variable for the given kind.
    pub open spec fn xdg_home(self, kind: Kind) -> Option<Seq<char>> {
        match kind {
            Kind::Cache => self.xdg_cache_home,
            Kind::Config => self.xdg_config_home,
        }
    }

    /// The XDG base for the given kind: the variable's value where it is an
    /// absolute path. A relative value counts as not set.
    pub open spec fn xdg_base(self, kind: Kind) -> Option<Seq<char>> {
        match self.xdg_home(kind) {
            Some(path) => if absolute(path) {
                Some(path)
            } else {
                None
            },
            None => None,
        }
    }

    /// The same variables with the XDG variable for the given kind not set.
    pub open spec fn without_xdg(self, kind: Kind) -> Variables {
        match kind {
            Kind::Cache => Variables { xdg_cache_home: None, ..self },
            Kind::Config => Variables { xdg_config_home: None, ..self },
        }
    }
}

impl Environment {
    /// Executable form of [`Variables::override_for`].
    pub fn override_for(&self, kind: Kind) -> (found: Option<&String>)
        ensures
            found.deep_view() == self@.override_for(kind),
    {
        match kind {
            Kind::Cache => match &self.cache_path {
                Some(path) => if path.as_str().is_empty() {
                    None
                } else {
                    Some(path)
                },
                None => None,
            },
            Kind::Config => None,
        }
    }

    /// Executable form of [`Variables::xdg_base`].
    pub fn xdg_base(&self, kind: Kind) -> (found: Option<&String>)
        ensures
            found.deep_view() == self@.xdg_base(kind),
    {
        let value: &Option<String> = match kind {
            Kind::Cache => &self.xdg_cache_home,
            Kind::Config => &self.xdg_config_home,
        };
        match value {
            Some(path) => if is_absolute(path.as_str()) {
                Some(path)
            } else {
                None
            },
            None => None,
        }
    }
}

/// What the platform answered: the home directory and its base directories
/// for caches and for configuration, each `None` where it knows none.
#[derive(PartialEq, Eq, Debug)]
pub struct Lookups {
    pub home_dir: Option<String>,
    pub cache_dir: Option<String>,
    pub config_dir: Option<String>,
}

/// What a [`Lookups`] stands for in contracts.
pub struct Found {
    pub home_dir: Option<Seq<char>>,
    pub cache_dir: Option<Seq<char>>,
    pub config_dir: Option<Seq<char>>,
}

impl View for Lookups {
    type V = Found;

    open spec fn view(&self) -> Found {
        Found {
            home_dir: self.home_dir.deep_view(),
            cache_dir: self.cache_dir.deep_view(),
            config_dir: self.config_dir.deep_view(),
        }
    }
}

impl Clone for Lookups {
    fn clone(&self) -> (copy: Lookups)
        ensures
            copy@ == self@,
    {
        Lookups {
            home_dir: self.home_dir.clone(),
            cache_dir: self.cache_dir.clone(),
            config_dir: self.config_dir.clone(),
        }
    }
}

impl Found {
    /// No answer at all.
    pub open spec fn nothing() -> Found {
        Found { home_dir: None, cache_dir: None, config_dir: None }
    }

    /// The platform's own base directory for the given kind.
    pub open spec fn native(self, kind: Kind) -> Option<Seq<char>> {
        match kind {
            Kind::Cache => self.cache_dir,
            Kind::Config => self.config_dir,
        }
    }
}

} // verus!
