use brolaunch::desktop_dialog::SessionType;
use brolaunch::launch::{launch_args, should_include_flag};
use brolaunch::profiles::{BrowserType, Config, Profile, ProfileConfig};

const WAYLAND_FLAG: &str = "--ozone-platform=wayland";
const OZONE_FLAG: &str = "--enable-features=UseOzonePlatform";

fn configured(user_data_dir: Option<&str>, flags: Option<&[&str]>) -> Config {
    let mut config = Config::new();
    let replaced = config.insert_profile(Profile {
        name: "work".to_string(),
        config: ProfileConfig {
            user_data_dir: user_data_dir.map(|s| s.to_string()),
            app_mode: None,
            patterns: None,
            app_patterns: None,
            cli_flags: flags.map(|f| f.iter().map(|s| s.to_string()).collect()),
        },
    });
    assert!(!replaced);
    config
}

#[test]
fn wayland_flags_are_left_out_under_x11_only() {
    for flag in [WAYLAND_FLAG, OZONE_FLAG, "--enable-features=UseOzonePlatform,Other", "x --ozone-platform=wayland"] {
        assert!(!should_include_flag(flag, &SessionType::X11), "{:?}", flag);
        assert!(should_include_flag(flag, &SessionType::Wayland));
        assert!(should_include_flag(flag, &SessionType::Unknown));
    }
    for flag in ["", "--incognito", "--ozone-platform=x11", "--enable-features=Other"] {
        assert!(should_include_flag(flag, &SessionType::X11), "{:?}", flag);
        assert!(should_include_flag(flag, &SessionType::Wayland));
        assert!(should_include_flag(flag, &SessionType::Unknown));
    }
}

#[test]
fn chromium_with_a_configured_profile() {
    let config = configured(Some("/data/work"), Some(&["--incognito", WAYLAND_FLAG, "--x"]));
    let args = launch_args(
        BrowserType::Chromium, "work", Some("https://example.com"), &config, SessionType::X11, false, false,
    );
    assert_eq!(
        args,
        vec![
            "--user-data-dir=/data/work", "--incognito", "--x", "--profile-directory=work",
            "--new-window", "https://example.com"
        ]
    );
    let args = launch_args(
        BrowserType::Chromium, "work", Some("https://example.com"), &config, SessionType::Wayland, false, true,
    );
    assert_eq!(
        args,
        vec![
            "--user-data-dir=/data/work", "--incognito", WAYLAND_FLAG, "--x",
            "--profile-directory=work", "https://example.com"
        ]
    );
}

#[test]
fn chromium_app_mode_opens_the_url_as_an_app() {
    let config = configured(None, None);
    for existing in [false, true] {
        let args = launch_args(
            BrowserType::Chromium, "work", Some("https://example.com"), &config, SessionType::Unknown, true, existing,
        );
        assert_eq!(args, vec!["--profile-directory=work", "--app=https://example.com"]);
    }
}

#[test]
fn chromium_without_a_url() {
    let config = configured(None, Some(&[]));
    let session = SessionType::Unknown;
    let args = launch_args(BrowserType::Chromium, "work", None, &config, session, true, false);
    assert_eq!(args, vec!["--profile-directory=work", "--new-window"]);
    let args = launch_args(BrowserType::Chromium, "work", None, &config, session, false, true);
    assert_eq!(args, vec!["--profile-directory=work"]);
}

#[test]
fn a_profile_that_is_not_configured() {
    let config = configured(Some("/data/work"), Some(&["--incognito"]));
    let session = SessionType::Wayland;
    let args = launch_args(BrowserType::Chromium, "Work", Some("u"), &config, session, false, false);
    assert_eq!(args, vec!["--profile-directory=Work", "--new-window", "u"]);
    let args = launch_args(BrowserType::Firefox, "other", None, &config, session, false, false);
    assert_eq!(args, vec!["-P", "other", "-new-window"]);
}

#[test]
fn firefox_with_a_configured_profile() {
    let config = configured(Some("/data/work"), Some(&[WAYLAND_FLAG, "--private"]));
    let args = launch_args(
        BrowserType::Firefox, "work", Some("https://example.com"), &config, SessionType::X11, true, false,
    );
    assert_eq!(
        args,
        vec!["-profile", "/data/work", WAYLAND_FLAG, "--private", "-new-window", "https://example.com"]
    );
    let config = configured(None, None);
    let args = launch_args(
        BrowserType::Firefox, "work", Some("https://example.com"), &config, SessionType::X11, false, true,
    );
    assert_eq!(args, vec!["-P", "work", "https://example.com"]);
    let args = launch_args(BrowserType::Firefox, "work", None, &config, SessionType::X11, false, true);
    assert_eq!(args, vec!["-P", "work"]);
}
