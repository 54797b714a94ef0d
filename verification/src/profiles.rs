//! The configured browser profiles and the matching of a URL against their
//! patterns.
//!
//! Profiles are kept in the order in which they were configured, and that
//! order decides between profiles whose patterns match the same URL: the
//! first configured profile wins.

use crate::pattern::{any_pattern_matches, matches_any};
use vstd::prelude::*;

verus! {

/// The browser families that can be launched.
#[derive(Debug, Clone, Copy, PartialEq, Eq, Structural)]
pub enum BrowserType {
    Chromium,
    Firefox,
}

/// What is configured for one profile.
#[derive(Debug, Clone)]
pub struct ProfileConfig {
    pub user_data_dir: Option<String>,
    pub app_mode: Option<bool>,
    pub patterns: Option<Vec<String>>,
    pub app_patterns: Option<Vec<String>>,
    pub cli_flags: Option<Vec<String>>,
}

/// A profile: its name and what is configured for it.
#[derive(Debug, Clone)]
pub struct Profile {
    pub name: String,
    pub config: ProfileConfig,
}

/// The outcome of matching a URL: the profile that takes it, and whether it
/// opens as an app window.
#[derive(Debug, Clone)]
pub struct ProfileMatch {
    pub profile: String,
    pub app_mode: bool,
}

/// The whole configuration. `profiles` is ordered.
#[derive(Debug, Clone)]
pub struct Config {
    pub browser_type: Option<BrowserType>,
    pub chromium_binary: Option<String>,
    pub firefox_binary: Option<String>,
    pub default_profile: Option<String>,
    pub profiles: Vec<Profile>,
}

/// The texts of an optional list; an absent list has none.
pub open spec fn listed(list: Option<Vec<String>>) -> Seq<Seq<char>> {
    match list {
        Some(items) => items.deep_view(),
        None => Seq::empty(),
    }
}

impl Profile {
    /// One of the profile's app patterns matches the URL.
    pub open spec fn app_matches(&self, url: Seq<char>) -> bool {
        any_pattern_matches(listed(self.config.app_patterns), url)
    }

    /// One of the profile's ordinary patterns matches the URL.
    pub open spec fn window_matches(&self, url: Seq<char>) -> bool {
        any_pattern_matches(listed(self.config.patterns), url)
    }

    /// The profile takes the URL: one of its patterns, of either list,
    /// matches.
    pub open spec fn takes(&self, url: Seq<char>) -> bool {
        self.app_matches(url) || self.window_matches(url)
    }

    /// Whether a URL that the profile takes opens as an app window: always
    /// when an app pattern matched, and otherwise as the profile's own
    /// setting says, which is no when there is none.
    pub open spec fn opens_as_app(&self, url: Seq<char>) -> bool {
        self.app_matches(url) || self.config.app_mode == Some(true)
    }

    /// Tests the URL against the profile's patterns, app patterns first.
    pub fn match_url(&self, url: &str) -> (app_mode: Option<bool>)
        ensures
            app_mode is Some <==> self.takes(url@),
            app_mode matches Some(app) ==> app == self.opens_as_app(url@),
    {
        let as_app = match &self.config.app_patterns {
            Some(patterns) => matches_any(patterns, url),
            None => false,
        };
        if as_app {
            return Some(true);
        }
        let as_window = match &self.config.patterns {
            Some(patterns) => matches_any(patterns, url),
            None => false,
        };
        if as_window {
            Some(
                match self.config.app_mode {
                    Some(app) => app,
                    None => false,
                },
            )
        } else {
            None
        }
    }
}

/// Profile `index` is the first of the list that takes the URL.
pub open spec fn is_first_taker(profiles: Seq<Profile>, url: Seq<char>, index: int) -> bool {
    &&& 0 <= index < profiles.len()
    &&& profiles[index].takes(url)
    &&& forall|earlier: int| 0 <= earlier < index ==> !(#[trigger] profiles[earlier]).takes(url)
}

/// The names of the profiles, in order.
pub open spec fn names_of(profiles: Seq<Profile>) -> Seq<Seq<char>> {
    Seq::new(profiles.len(), |i: int| profiles[i].name@)
}

/// No two profiles have the same name.
pub open spec fn distinct_names(profiles: Seq<Profile>) -> bool {
    forall|i: int, j: int|
        0 <= i < j < profiles.len() ==> (#[trigger] profiles[i]).name@ != (
        #[trigger] profiles[j]).name@
}

impl Config {
    /// The configuration is well formed: a profile's name is its key, so no
    /// name occurs twice.
    pub open spec fn wf(&self) -> bool {
        distinct_names(self.profiles@)
    }

    /// A configuration without profiles.
    pub fn new() -> (config: Config)
        ensures
            config.wf(),
            config.profiles@.len() == 0,
            config.browser_type is None,
            config.chromium_binary is None,
            config.firefox_binary is None,
            config.default_profile is None,
    {
        Config {
            browser_type: None,
            chromium_binary: None,
            firefox_binary: None,
            default_profile: None,
            profiles: Vec::new(),
        }
    }

    /// The position of the profile called `name`.
    pub fn position(&self, name: &str) -> (found: Option<usize>)
        ensures
            found is None <==> !names_of(self.profiles@).contains(name@),
            found matches Some(i) ==> i < self.profiles.len() && self.profiles[i as int].name@
                == name@ && forall|j: int| 0 <= j < i ==> (#[trigger] self.profiles[j]).name@
                != name@,
    {
        let wanted = name.to_owned();
        let mut i: usize = 0;
        while i < self.profiles.len()
            invariant
                i <= self.profiles.len(),
                wanted@ == name@,
                forall|j: int| 0 <= j < i ==> (#[trigger] self.profiles[j]).name@ != name@,
            decreases self.profiles.len() - i,
        {
            if self.profiles[i].name == wanted {
                assert(names_of(self.profiles@)[i as int] == name@);
                return Some(i);
            }
            i += 1;
        }
        assert forall|k: int| 0 <= k < names_of(self.profiles@).len() implies names_of(
            self.profiles@,
        )[k] != name@ by {
            assert(self.profiles[k].name@ != name@);
        }
        None
    }

    /// Configures a profile. A profile of the same name is replaced where
    /// it stands, and the answer is yes; a new one is added at the end.
    pub fn insert_profile(&mut self, profile: Profile) -> (replaced: bool)
        ensures
            replaced == names_of(old(self).profiles@).contains(profile.name@),
            !replaced ==> final(self).profiles@ == old(self).profiles@.push(profile),
            replaced ==> exists|i: int|
                {
                    &&& 0 <= i < old(self).profiles.len()
                    &&& (#[trigger] old(self).profiles[i]).name@ == profile.name@
                    &&& forall|j: int|
                        0 <= j < i ==> (#[trigger] old(self).profiles[j]).name@ != profile.name@
                    &&& final(self).profiles@ == old(self).profiles@.update(i, profile)
                },
            final(self).browser_type == old(self).browser_type,
            final(self).chromium_binary == old(self).chromium_binary,
            final(self).firefox_binary == old(self).firefox_binary,
            final(self).default_profile == old(self).default_profile,
            old(self).wf() ==> final(self).wf(),
    {
        let ghost before = self.profiles@;
        match self.position(profile.name.as_str()) {
            Some(i) => {
                self.profiles[i] = profile;
                proof {
                    let after = self.profiles@;
                    assert(after =~= before.update(i as int, profile));
                    if distinct_names(before) {
                        assert forall|a: int, b: int| 0 <= a < b < after.len() implies (
                        #[trigger] after[a]).name@ != (#[trigger] after[b]).name@ by {
                            assert(before[a].name@ != before[b].name@);
                        }
                    }
                }
                true
            },
            None => {
                proof {
                    if distinct_names(before) {
                        let after = before.push(profile);
                        assert forall|a: int, b: int| 0 <= a < b < after.len() implies (
                        #[trigger] after[a]).name@ != (#[trigger] after[b]).name@ by {
                            if b == before.len() {
                                assert(names_of(before)[a] == before[a].name@);
                            } else {
                                assert(before[a].name@ != before[b].name@);
                            }
                        }
                    }
                }
                self.profiles.push(profile);
                false
            },
        }
    }
}

/// Finds the profile that takes the URL: the first configured profile one of
/// whose patterns matches it. App patterns are tested before ordinary ones,
/// and a match on an app pattern opens an app window whatever the profile's
/// own setting. When no pattern of any profile matches, there is no match.
pub fn match_profile(url: &str, config: &Config) -> (found: Option<ProfileMatch>)
    ensures
        found is None <==> forall|i: int|
            0 <= i < config.profiles.len() ==> !(#[trigger] config.profiles[i]).takes(url@),
        found matches Some(m) ==> exists|i: int|
            {
                &&& #[trigger] is_first_taker(config.profiles@, url@, i)
                &&& m.profile@ == config.profiles[i].name@
                &&& m.app_mode == config.profiles[i].opens_as_app(url@)
            },
{
    let mut i: usize = 0;
    while i < config.profiles.len()
        invariant
            i <= config.profiles.len(),
            forall|k: int| 0 <= k < i ==> !(#[trigger] config.profiles[k]).takes(url@),
        decreases config.profiles.len() - i,
    {
        let profile = &config.profiles[i];
        match profile.match_url(url) {
            Some(app_mode) => {
                assert(is_first_taker(config.profiles@, url@, i as int));
                return Some(ProfileMatch { profile: profile.name.clone(), app_mode });
            },
            None => {},
        }
        i += 1;
    }
    None
}

/// The names of the configured profiles, in their order.
pub fn get_available_profiles(config: &Config) -> (names: Vec<String>)
    ensures
        names.deep_view() == names_of(config.profiles@),
        config.wf() ==> names.deep_view().no_duplicates(),
{
    let mut names: Vec<String> = Vec::new();
    let mut i: usize = 0;
    while i < config.profiles.len()
        invariant
            i <= config.profiles.len(),
            names.deep_view() == names_of(config.profiles@).take(i as int),
        decreases config.profiles.len() - i,
    {
        let ghost before = names.deep_view();
        let name = config.profiles[i].name.clone();
        names.push(name);
        assert(names.deep_view() =~= before.push(name@));
        assert(names.deep_view() =~= names_of(config.profiles@).take(i + 1));
        i += 1;
    }
    assert(names_of(config.profiles@).take(config.profiles.len() as int) =~= names_of(
        config.profiles@,
    ));
    proof {
        if config.wf() {
            let all = names_of(config.profiles@);
            assert forall|a: int, b: int| 0 <= a < all.len() && 0 <= b < all.len() && a
                != b implies all[a] != all[b] by {
                if a < b {
                    assert(config.profiles[a].name@ != config.profiles[b].name@);
                } else {
                    assert(config.profiles[b].name@ != config.profiles[a].name@);
                }
            }
        }
    }
    names
}

impl Config {
    /// The browser family to launch: the configured one, or Chromium.
    pub open spec fn browser_family(&self) -> BrowserType {
        match self.browser_type {
            Some(configured) => configured,
            None => BrowserType::Chromium,
        }
    }

    /// The browser family to launch.
    pub fn browser(&self) -> (browser: BrowserType)
        ensures
            browser == self.browser_family(),
    {
        match self.browser_type {
            Some(configured) => configured,
            None => BrowserType::Chromium,
        }
    }

    /// The program to run for the browser: the one configured for its
    /// family, or the family's usual name.
    pub fn binary(&self) -> (binary: String)
        ensures
            binary@ == (match self.browser_family() {
                BrowserType::Chromium => match self.chromium_binary {
                    Some(path) => path@,
                    None => "chromium"@,
                },
                BrowserType::Firefox => match self.firefox_binary {
                    Some(path) => path@,
                    None => "firefox"@,
                },
            }),
    {
        match self.browser() {
            BrowserType::Chromium => match &self.chromium_binary {
                Some(path) => path.clone(),
                None => "chromium".to_string(),
            },
            BrowserType::Firefox => match &self.firefox_binary {
                Some(path) => path.clone(),
                None => "firefox".to_string(),
            },
        }
    }
}

impl BrowserType {
    /// The browser family's name in words.
    pub open spec fn label(self) -> Seq<char> {
        match self {
            BrowserType::Chromium => "Chromium"@,
            BrowserType::Firefox => "Firefox"@,
        }
    }

    /// The browser family's name.
    pub fn name(&self) -> (name: &'static str)
        ensures
            name@ == self.label(),
    {
        match self {
            BrowserType::Chromium => "Chromium",
            BrowserType::Firefox => "Firefox",
        }
    }
}

/// Why no configuration file could be chosen.
#[derive(Debug, Clone, Copy, PartialEq, Eq, Structural)]
pub enum ConfigError {
    /// No path was given and none of the usual files exists.
    NotFound,
}

impl ConfigError {
    /// The error in words.
    pub fn message(&self) -> (text: String)
        ensures
            text@ == "No config file found. Looked for ~/.config/brolaunch.yaml and ./config.yaml"@,
    {
        "No config file found. Looked for ~/.config/brolaunch.yaml and ./config.yaml".to_string()
    }
}

/// Where the configuration file is taken from.
#[derive(Debug, Clone, Copy, PartialEq, Eq, Structural)]
pub enum ConfigSource {
    /// The path that the user gave.
    Given,
    /// `brolaunch.yaml` in the user's configuration directory.
    UserDirectory,
    /// `config.yaml` in the current directory.
    CurrentDirectory,
}

impl ConfigSource {
    /// The name of the file that is looked for in a directory; a path given
    /// by the user has none.
    pub fn file_name(&self) -> (name: Option<&'static str>)
        ensures
            match *self {
                ConfigSource::Given => name is None,
                ConfigSource::UserDirectory => name matches Some(n) && n@ == "brolaunch.yaml"@,
                ConfigSource::CurrentDirectory => name matches Some(n) && n@ == "config.yaml"@,
            },
    {
        match self {
            ConfigSource::Given => None,
            ConfigSource::UserDirectory => Some("brolaunch.yaml"),
            ConfigSource::CurrentDirectory => Some("config.yaml"),
        }
    }
}

/// The source that is chosen when a path was or was not given and the two
/// usual files do or do not exist.
pub open spec fn config_source(given: bool, in_user_directory: bool, in_current_directory: bool)
    -> Result<ConfigSource, ConfigError> {
    if given {
        Ok(ConfigSource::Given)
    } else if in_user_directory {
        Ok(ConfigSource::UserDirectory)
    } else if in_current_directory {
        Ok(ConfigSource::CurrentDirectory)
    } else {
        Err(ConfigError::NotFound)
    }
}

/// Chooses the configuration file. A path given by the user is taken as it
/// is, whether the file exists or not. Otherwise the file in the user's
/// configuration directory is taken if it exists, and else the one in the
/// current directory if that exists. Failing all, there is none.
pub fn find_config_file(given: bool, in_user_directory: bool, in_current_directory: bool) -> (chosen:
    Result<ConfigSource, ConfigError>)
    ensures
        chosen == config_source(given, in_user_directory, in_current_directory),
        chosen is Err <==> !given && !in_user_directory && !in_current_directory,
{
    if given {
        Ok(ConfigSource::Given)
    } else if in_user_directory {
        Ok(ConfigSource::UserDirectory)
    } else if in_current_directory {
        Ok(ConfigSource::CurrentDirectory)
    } else {
        Err(ConfigError::NotFound)
    }
}

} // verus!
