//! The command line with which the browser is started.

use crate::desktop_dialog::SessionType;
use crate::profiles::{listed, BrowserType, Config, ProfileConfig};
use crate::text::{chars_contain_str, chars_of, text_contains};
use vstd::prelude::*;
use vstd::string::*;

verus! {

/// A flag that only makes sense under Wayland.
pub open spec fn is_wayland_flag(flag: Seq<char>) -> bool {
    text_contains(flag, "--ozone-platform=wayland"@) || text_contains(
        flag,
        "--enable-features=UseOzonePlatform"@,
    )
}

/// Whether a configured flag is passed on under the given session type:
/// under X11 the Wayland flags are left out; otherwise, and also when the
/// session type is unknown, every flag is passed on.
pub open spec fn flag_included(flag: Seq<char>, session: SessionType) -> bool {
    session != SessionType::X11 || !is_wayland_flag(flag)
}

/// Decides whether a configured flag is passed on to the browser.
pub fn should_include_flag(flag: &str, session_type: &SessionType) -> (included: bool)
    ensures
        included == flag_included(flag@, *session_type),
        *session_type != SessionType::X11 ==> included,
{
    match session_type {
        SessionType::X11 => {
            let text = chars_of(flag);
            !chars_contain_str(&text, "--ozone-platform=wayland") && !chars_contain_str(
                &text,
                "--enable-features=UseOzonePlatform",
            )
        },
        SessionType::Wayland => true,
        SessionType::Unknown => true,
    }
}

/// The flags of the list that are passed on, in their order.
pub open spec fn included_flags(flags: Seq<Seq<char>>, session: SessionType) -> Seq<Seq<char>>
    decreases flags.len(),
{
    if flags.len() == 0 {
        Seq::empty()
    } else if flag_included(flags.last(), session) {
        included_flags(flags.drop_last(), session).push(flags.last())
    } else {
        included_flags(flags.drop_last(), session)
    }
}

/// The arguments that select the profile. `settings` is what is configured
/// for the profile, if anything.
///
/// Chromium gets its data directory, if one is configured, then the
/// configured flags that suit the session, then the profile directory.
/// Firefox gets its data directory or, without one, the profile's name, and
/// then every configured flag.
pub open spec fn profile_arguments(
    browser: BrowserType,
    profile: Seq<char>,
    settings: Option<ProfileConfig>,
    session: SessionType,
) -> Seq<Seq<char>> {
    let data_dir = match settings {
        Some(s) => s.user_data_dir.deep_view(),
        None => None,
    };
    let flags = match settings {
        Some(s) => listed(s.cli_flags),
        None => Seq::empty(),
    };
    match browser {
        BrowserType::Chromium => (match data_dir {
            Some(dir) => seq!["--user-data-dir="@ + dir],
            None => Seq::empty(),
        }) + included_flags(flags, session) + seq!["--profile-directory="@ + profile],
        BrowserType::Firefox => (match data_dir {
            Some(dir) => seq!["-profile"@, dir],
            None => seq!["-P"@, profile],
        }) + flags,
    }
}

/// The argument that asks for a new window, unless an existing window is
/// to be used.
pub open spec fn window_arguments(browser: BrowserType, existing: bool) -> Seq<Seq<char>> {
    if existing {
        Seq::empty()
    } else {
        match browser {
            BrowserType::Chromium => seq!["--new-window"@],
            BrowserType::Firefox => seq!["-new-window"@],
        }
    }
}

/// The arguments that say what to open: for Chromium in app mode the URL
/// as an app, and otherwise a new window, unless an existing one is wanted,
/// followed by the URL if there is one. Firefox has no app mode.
pub open spec fn target_arguments(
    browser: BrowserType,
    url: Option<Seq<char>>,
    app_mode: bool,
    existing: bool,
) -> Seq<Seq<char>> {
    match url {
        Some(address) => if browser == BrowserType::Chromium && app_mode {
            seq!["--app="@ + address]
        } else {
            window_arguments(browser, existing) + seq![address]
        },
        None => window_arguments(browser, existing),
    }
}

/// What is configured for the profile called `name`, if it is configured.
pub open spec fn settings_of(config: Config, name: Seq<char>) -> Option<ProfileConfig> {
    if exists|i: int| 0 <= i < config.profiles.len() && (#[trigger] config.profiles[i]).name@ == name {
        let first = choose|i: int|
            0 <= i < config.profiles.len() && (#[trigger] config.profiles[i]).name@ == name
                && forall|j: int| 0 <= j < i ==> (#[trigger] config.profiles[j]).name@ != name;
        Some(config.profiles[first].config)
    } else {
        None
    }
}

/// The browser's whole argument list.
pub open spec fn launch_arguments(
    browser: BrowserType,
    profile: Seq<char>,
    url: Option<Seq<char>>,
    config: Config,
    session: SessionType,
    app_mode: bool,
    existing: bool,
) -> Seq<Seq<char>> {
    profile_arguments(browser, profile, settings_of(config, profile), session) + target_arguments(
        browser,
        url,
        app_mode,
        existing,
    )
}

fn push_arg(args: &mut Vec<String>, arg: String)
    ensures
        final(args).deep_view() == old(args).deep_view().push(arg@),
{
    args.push(arg);
    assert(args.deep_view() =~= old(args).deep_view().push(arg@));
}

fn prefixed(prefix: &str, value: &str) -> (r: String)
    ensures
        r@ == prefix@ + value@,
{
    let mut r = prefix.to_string();
    r.append(value);
    r
}

fn push_flags(args: &mut Vec<String>, flags: &Vec<String>, session: SessionType, filter: bool)
    ensures
        final(args).deep_view() == old(args).deep_view() + (if filter {
            included_flags(flags.deep_view(), session)
        } else {
            flags.deep_view()
        }),
{
    let ghost start = args.deep_view();
    let ghost all = flags.deep_view();
    let mut i: usize = 0;
    assert(all.take(0) =~= Seq::<Seq<char>>::empty());
    assert(args.deep_view() =~= start + all.take(0));
    while i < flags.len()
        invariant
            i <= flags.len(),
            all == flags.deep_view(),
            args.deep_view() == start + (if filter {
                included_flags(all.take(i as int), session)
            } else {
                all.take(i as int)
            }),
        decreases flags.len() - i,
    {
        let ghost next = all.take(i + 1);
        assert(next.drop_last() =~= all.take(i as int));
        assert(next.last() == flags[i as int]@);
        if !filter || should_include_flag(flags[i].as_str(), &session) {
            push_arg(args, flags[i].clone());
        }
        assert(args.deep_view() =~= start + (if filter {
            included_flags(next, session)
        } else {
            next
        }));
        i += 1;
    }
    assert(all.take(flags.len() as int) =~= all);
}

/// Builds the browser's argument list for the resolved profile.
pub fn launch_args(
    browser_type: BrowserType,
    profile: &str,
    url: Option<&str>,
    config: &Config,
    session_type: SessionType,
    app_mode: bool,
    existing: bool,
) -> (args: Vec<String>)
    ensures
        args.deep_view() == launch_arguments(
            browser_type,
            profile@,
            match url {
                Some(address) => Some(address@),
                None => None,
            },
            *config,
            session_type,
            app_mode,
            existing,
        ),
{
    let mut args: Vec<String> = Vec::new();
    assert(args.deep_view() =~= Seq::<Seq<char>>::empty());
    let position = config.position(profile);
    let ghost settings = settings_of(*config, profile@);
    proof {
        match position {
            Some(i) => {
                let first = choose|k: int|
                    0 <= k < config.profiles.len() && (#[trigger] config.profiles[k]).name@
                        == profile@ && forall|j: int|
                        0 <= j < k ==> (#[trigger] config.profiles[j]).name@ != profile@;
                assert(first == i);
            },
            None => {
                assert forall|k: int| 0 <= k < config.profiles.len() implies (
                #[trigger] config.profiles[k]).name@ != profile@ by {
                    assert(crate::profiles::names_of(config.profiles@)[k]
                        == config.profiles[k].name@);
                }
            },
        }
    }
    let mut has_data_dir = false;
    match position {
        Some(i) => {
            let settings = &config.profiles[i].config;
            match &settings.user_data_dir {
                Some(dir) => {
                    has_data_dir = true;
                    match browser_type {
                        BrowserType::Chromium => {
                            push_arg(&mut args, prefixed("--user-data-dir=", dir.as_str()));
                        },
                        BrowserType::Firefox => {
                            push_arg(&mut args, "-profile".to_string());
                            push_arg(&mut args, dir.clone());
                        },
                    }
                },
                None => {},
            }
        },
        None => {},
    }
    if browser_type == BrowserType::Firefox && !has_data_dir {
        push_arg(&mut args, "-P".to_string());
        push_arg(&mut args, profile.to_string());
    }
    match position {
        Some(i) => {
            match &config.profiles[i].config.cli_flags {
                Some(flags) => {
                    push_flags(
                        &mut args,
                        flags,
                        session_type,
                        browser_type == BrowserType::Chromium,
                    );
                },
                None => {
                    assert(args.deep_view() + Seq::<Seq<char>>::empty() =~= args.deep_view());
                },
            }
        },
        None => {
            assert(args.deep_view() + Seq::<Seq<char>>::empty() =~= args.deep_view());
        },
    }
    if browser_type == BrowserType::Chromium {
        push_arg(&mut args, prefixed("--profile-directory=", profile));
    }
    assert(args.deep_view() =~= profile_arguments(browser_type, profile@, settings, session_type));
    let ghost selected = args.deep_view();
    match url {
        Some(address) => {
            if browser_type == BrowserType::Chromium && app_mode {
                push_arg(&mut args, prefixed("--app=", address));
            } else {
                if !existing {
                    match browser_type {
                        BrowserType::Chromium => push_arg(&mut args, "--new-window".to_string()),
                        BrowserType::Firefox => push_arg(&mut args, "-new-window".to_string()),
                    }
                }
                push_arg(&mut args, address.to_string());
            }
        },
        None => {
            if !existing {
                match browser_type {
                    BrowserType::Chromium => push_arg(&mut args, "--new-window".to_string()),
                    BrowserType::Firefox => push_arg(&mut args, "-new-window".to_string()),
                }
            }
        },
    }
    assert(args.deep_view() =~= selected + target_arguments(
        browser_type,
        match url {
            Some(address) => Some(address@),
            None => None,
        },
        app_mode,
        existing,
    ));
    args
}

} // verus!
