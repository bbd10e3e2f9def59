use silicon_dirs::error::DirectoryResolutionError;
use silicon_dirs::inputs::{Environment, Kind, Lookups};
use silicon_dirs::path::Platform;
use silicon_dirs::project_dirs::SiliconProjectDirs;
use silicon_dirs::resolve::{ask_platform, get_dir};
use silicon_dirs::resolver::Resolver;

fn text(value: &str) -> Option<String> {
    Some(String::from(value))
}

fn no_variables() -> Environment {
    Environment { cache_path: None, xdg_cache_home: None, xdg_config_home: None }
}

fn no_answers() -> Lookups {
    Lookups { home_dir: None, cache_dir: None, config_dir: None }
}

fn as_text(path: Option<std::path::PathBuf>) -> Option<String> {
    path.and_then(|p| p.into_os_string().into_string().ok())
}

#[test]
fn platform_is_not_asked_where_the_environment_decides() {
    let env = Environment {
        cache_path: text("/override/cache"),
        xdg_cache_home: None,
        xdg_config_home: text("/custom/cfg"),
    };
    for platform in [Platform::Unix, Platform::MacOs, Platform::Windows] {
        assert_eq!(ask_platform(platform, Kind::Cache, &env), no_answers());
    }
    assert_eq!(ask_platform(Platform::MacOs, Kind::Config, &env), no_answers());
}

#[test]
fn platform_is_asked_for_the_home_directory_on_macos() {
    for kind in [Kind::Cache, Kind::Config] {
        let found = ask_platform(Platform::MacOs, kind, &no_variables());
        assert_eq!(found.home_dir, as_text(dirs::home_dir()));
        assert_eq!(found.cache_dir, None);
        assert_eq!(found.config_dir, None);
    }
}

#[test]
fn platform_is_asked_for_the_native_cache_directory() {
    let found = ask_platform(Platform::Unix, Kind::Cache, &no_variables());
    assert_eq!(found.cache_dir, as_text(dirs::cache_dir()));
    assert_eq!(found.home_dir, None);
    assert_eq!(found.config_dir, None);
}

#[test]
fn platform_is_asked_for_the_native_config_directory() {
    let found = ask_platform(Platform::Unix, Kind::Config, &no_variables());
    assert_eq!(found.config_dir, as_text(dirs::config_dir()));
    assert_eq!(found.home_dir, None);
    assert_eq!(found.cache_dir, None);
}

#[test]
fn get_cache_dir_returns_the_override() {
    let env = Environment { cache_path: text("/override/cache"), ..no_variables() };
    for platform in [Platform::Unix, Platform::MacOs, Platform::Windows] {
        assert_eq!(
            SiliconProjectDirs::get_cache_dir(platform, &env),
            Ok(String::from("/override/cache"))
        );
    }
}

#[test]
fn get_config_dir_returns_the_xdg_base_on_macos() {
    let env = Environment { xdg_config_home: text("/custom/cfg"), ..no_variables() };
    assert_eq!(
        SiliconProjectDirs::get_config_dir(Platform::MacOs, &env),
        Ok(String::from("/custom/cfg/silicon"))
    );
}

#[test]
fn get_cache_dir_lies_below_the_native_directory() {
    match SiliconProjectDirs::get_cache_dir(Platform::Unix, &no_variables()) {
        Ok(path) => {
            let base = as_text(dirs::cache_dir()).unwrap();
            assert!(path.starts_with(&base));
            assert!(path.ends_with("silicon"));
            assert!(path.len() > base.len());
        }
        Err(error) => {
            assert_eq!(error, DirectoryResolutionError::PlatformDirsUnavailable);
            assert_eq!(as_text(dirs::cache_dir()), None);
        }
    }
}

#[test]
fn get_config_dir_lies_below_the_native_directory() {
    match SiliconProjectDirs::get_config_dir(Platform::Unix, &no_variables()) {
        Ok(path) => {
            let base = as_text(dirs::config_dir()).unwrap();
            assert!(path.starts_with(&base));
            assert!(path.ends_with("silicon"));
            assert!(path.len() > base.len());
        }
        Err(error) => {
            assert_eq!(error, DirectoryResolutionError::PlatformDirsUnavailable);
            assert_eq!(as_text(dirs::config_dir()), None);
        }
    }
}

#[test]
fn get_dir_on_macos_lies_below_the_home_directory() {
    for (kind, dot_dir) in [(Kind::Cache, ".cache"), (Kind::Config, ".config")] {
        match get_dir(Platform::MacOs, kind, &no_variables()) {
            Ok(path) => {
                let home = as_text(dirs::home_dir()).unwrap();
                assert!(path.starts_with(&home));
                assert!(path.ends_with(&format!("{}/silicon", dot_dir)));
            }
            Err(error) => {
                assert_eq!(error, DirectoryResolutionError::HomeUnknown);
                assert_eq!(as_text(dirs::home_dir()), None);
            }
        }
    }
}

#[test]
fn new_resolver_asks_for_nothing_where_the_environment_decides() {
    let env = Environment {
        cache_path: text("/override/cache"),
        xdg_cache_home: None,
        xdg_config_home: text("/custom/cfg"),
    };
    let resolver = Resolver::new(Platform::MacOs, &env);
    assert_eq!(resolver.pending(), Some("/custom/cfg/silicon"));
    let dirs = resolver.step(Ok(())).step(Ok(())).finish().unwrap().unwrap();
    assert_eq!(dirs.cache_dir(), "/override/cache");
    assert_eq!(dirs.config_dir(), "/custom/cfg/silicon");
}

#[test]
fn new_resolver_agrees_with_the_lookups() {
    let found = Lookups {
        home_dir: as_text(dirs::home_dir()),
        cache_dir: as_text(dirs::cache_dir()),
        config_dir: as_text(dirs::config_dir()),
    };
    for platform in [Platform::Unix, Platform::MacOs, Platform::Windows] {
        let asked = Resolver::new(platform, &no_variables());
        let given = Resolver::with_lookups(platform, &no_variables(), &found);
        assert_eq!(asked.pending(), given.pending());
        let asked = asked.step(Ok(()));
        let given = given.step(Ok(()));
        assert_eq!(asked.pending(), given.pending());
        assert_eq!(asked.step(Ok(())).finish(), given.step(Ok(())).finish());
    }
}
