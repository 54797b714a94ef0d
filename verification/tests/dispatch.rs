use brolaunch::dispatch::{find_by_name, resolve, resolve_choice, Resolution};
use brolaunch::profiles::{Config, Profile, ProfileConfig};

fn entry(name: &str, patterns: &[&str], app_patterns: &[&str], app_mode: Option<bool>) -> Profile {
    let list = |items: &[&str]| -> Option<Vec<String>> {
        if items.is_empty() {
            None
        } else {
            Some(items.iter().map(|s| s.to_string()).collect())
        }
    };
    Profile {
        name: name.to_string(),
        config: ProfileConfig {
            user_data_dir: None,
            app_mode,
            patterns: list(patterns),
            app_patterns: list(app_patterns),
            cli_flags: None,
        },
    }
}

fn sample() -> Config {
    let mut config = Config::new();
    assert!(!config.insert_profile(entry("work", &["^https://work\\."], &["^https://chat\\.work\\."], None)));
    assert!(!config.insert_profile(entry("Home", &["example\\.org"], &[], Some(true))));
    assert!(!config.insert_profile(entry("my.site", &[], &[], None)));
    config
}

fn launched(resolution: Resolution) -> (String, Option<String>, bool) {
    match resolution {
        Resolution::Launch(target) => (target.profile, target.url, target.app_mode),
        other => panic!("not resolved: {:?}", other),
    }
}

#[test]
fn exact_name_is_case_insensitive() {
    let config = sample();
    assert_eq!(launched(resolve("Work", &config, false)), ("work".to_string(), None, false));
    assert_eq!(launched(resolve("WORK", &config, false)), ("work".to_string(), None, false));
    assert_eq!(launched(resolve("home", &config, false)), ("Home".to_string(), None, false));
    assert_eq!(find_by_name("hOmE", &config), Some(1));
    assert_eq!(find_by_name("homes", &config), None);
}

#[test]
fn exact_name_takes_app_mode_from_the_flag_alone() {
    let config = sample();
    assert_eq!(launched(resolve("home", &config, false)), ("Home".to_string(), None, false));
    assert_eq!(launched(resolve("home", &config, true)), ("Home".to_string(), None, true));
}

#[test]
fn exact_name_comes_before_patterns() {
    let config = sample();
    assert_eq!(launched(resolve("MY.SITE", &config, false)), ("my.site".to_string(), None, false));
}

#[test]
fn first_namesake_wins() {
    let mut config = sample();
    assert!(!config.insert_profile(entry("WORK", &[], &[], None)));
    assert_eq!(launched(resolve("Work", &config, false)).0, "work");
}

#[test]
fn url_is_matched_against_patterns() {
    let config = sample();
    let url = "https://work.example.com/page";
    assert_eq!(launched(resolve(url, &config, false)), ("work".to_string(), Some(url.to_string()), false));
    let url = "https://chat.work.example.com";
    assert_eq!(launched(resolve(url, &config, false)), ("work".to_string(), Some(url.to_string()), true));
    let url = "www.example.org";
    assert_eq!(launched(resolve(url, &config, false)), ("Home".to_string(), Some(url.to_string()), true));
}

#[test]
fn the_flag_turns_app_mode_on_and_never_off() {
    let config = sample();
    assert!(launched(resolve("https://work.example.com", &config, true)).2);
    assert!(!launched(resolve("https://work.example.com", &config, false)).2);
    assert!(launched(resolve("https://chat.work.example.com", &config, false)).2);
    assert!(launched(resolve("https://chat.work.example.com", &config, true)).2);
}

#[test]
fn unmatched_url_goes_to_the_chooser() {
    let config = sample();
    let all = vec!["work".to_string(), "Home".to_string(), "my.site".to_string()];
    match resolve("https://elsewhere.example.com", &config, false) {
        Resolution::Choose(offered) => assert_eq!(offered, all),
        other => panic!("unexpected: {:?}", other),
    }
    assert!(matches!(resolve("file:///tmp/x", &config, true), Resolution::Choose(offered) if offered == all));
    assert!(matches!(resolve("a.b", &Config::new(), false), Resolution::Choose(offered) if offered.is_empty()));
}

#[test]
fn other_input_is_unresolved() {
    let config = sample();
    for input in ["", "wor", "localhost", "work home", "http:/x", "example:org"] {
        assert!(matches!(resolve(input, &config, true), Resolution::Unresolved), "{:?}", input);
    }
}

#[test]
fn the_users_choice_is_launched_with_the_url() {
    let url = "https://elsewhere.example.com";
    assert_eq!(
        launched(resolve_choice(Some("Home".to_string()), url, false)),
        ("Home".to_string(), Some(url.to_string()), false)
    );
    assert!(launched(resolve_choice(Some("work".to_string()), url, true)).2);
    assert!(matches!(resolve_choice(None, url, true), Resolution::Unresolved));
}
