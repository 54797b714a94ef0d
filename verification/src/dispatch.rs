//! Resolution of the command-line input to a profile.
//!
//! The input is resolved in stages, and the first stage that succeeds
//! decides: a profile's name, written in any case; then, for an input that
//! looks like a URL, the profiles' patterns; then the user's own choice.

use crate::profiles::{
    get_available_profiles, is_first_taker, match_profile, names_of, Config, Profile,
};
use crate::text::{lowercase, str_contains, text_contains, to_lowercase};
use vstd::prelude::*;

verus! {

/// What is to be launched.
#[derive(Debug, Clone)]
pub struct LaunchTarget {
    pub profile: String,
    pub url: Option<String>,
    pub app_mode: bool,
}

/// How far resolution got.
#[derive(Debug, Clone)]
pub enum Resolution {
    /// The input is resolved.
    Launch(LaunchTarget),
    /// The input is a URL that no pattern matches: the user has to choose
    /// among the profiles, which are all the configured ones, in order.
    Choose(Vec<String>),
    /// The input is neither a profile's name nor a URL.
    Unresolved,
}

/// The two texts are the same but for the case of their letters.
pub open spec fn same_name(a: Seq<char>, b: Seq<char>) -> bool {
    lowercase(a) == lowercase(b)
}

/// The input has the shape of a URL: it holds `://` or a dot.
pub open spec fn looks_like_url(input: Seq<char>) -> bool {
    text_contains(input, "://"@) || text_contains(input, "."@)
}

/// Profile `index` is the first whose name the input spells.
pub open spec fn is_first_namesake(profiles: Seq<Profile>, input: Seq<char>, index: int) -> bool {
    &&& 0 <= index < profiles.len()
    &&& same_name(profiles[index].name@, input)
    &&& forall|earlier: int|
        0 <= earlier < index ==> !same_name((#[trigger] profiles[earlier]).name@, input)
}

/// Some profile's name is spelled by the input.
pub open spec fn has_namesake(profiles: Seq<Profile>, input: Seq<char>) -> bool {
    exists|i: int| 0 <= i < profiles.len() && same_name((#[trigger] profiles[i]).name@, input)
}

/// Some profile takes the URL.
pub open spec fn has_taker(profiles: Seq<Profile>, url: Seq<char>) -> bool {
    exists|i: int| 0 <= i < profiles.len() && (#[trigger] profiles[i]).takes(url)
}

/// Finds the first profile whose name the input spells, in any case.
pub fn find_by_name(input: &str, config: &Config) -> (found: Option<usize>)
    ensures
        found is Some <==> has_namesake(config.profiles@, input@),
        found matches Some(i) ==> is_first_namesake(config.profiles@, input@, i as int),
{
    let wanted = to_lowercase(input);
    let mut i: usize = 0;
    while i < config.profiles.len()
        invariant
            i <= config.profiles.len(),
            wanted@ == lowercase(input@),
            forall|k: int| 0 <= k < i ==> !same_name((#[trigger] config.profiles[k]).name@, input@),
        decreases config.profiles.len() - i,
    {
        let name = to_lowercase(config.profiles[i].name.as_str());
        if name == wanted {
            return Some(i);
        }
        i += 1;
    }
    None
}

/// Resolves the input. `app_flag` is the caller's wish for an app window; it
/// can turn app mode on and never off.
///
/// - A profile's name, in any case, launches that profile without a URL.
/// - Otherwise a URL that a profile takes launches that profile with the
///   URL, as an app window if the flag or the match says so.
/// - Otherwise a URL is left to the user's choice among all the profiles.
/// - Anything else is unresolved.
pub fn resolve(input: &str, config: &Config, app_flag: bool) -> (resolution: Resolution)
    ensures
        has_namesake(config.profiles@, input@) ==> (resolution matches Resolution::Launch(target)
            && target.url is None && target.app_mode == app_flag && exists|i: int|
            #[trigger] is_first_namesake(config.profiles@, input@, i) && target.profile@
                == config.profiles[i].name@),
        !has_namesake(config.profiles@, input@) && looks_like_url(input@) && has_taker(
            config.profiles@,
            input@,
        ) ==> (resolution matches Resolution::Launch(target) && target.url.deep_view() == Some(
            input@,
        ) && exists|i: int|
            {
                &&& #[trigger] is_first_taker(config.profiles@, input@, i)
                &&& target.profile@ == config.profiles[i].name@
                &&& target.app_mode == (app_flag || config.profiles[i].opens_as_app(input@))
            }),
        !has_namesake(config.profiles@, input@) && looks_like_url(input@) && !has_taker(
            config.profiles@,
            input@,
        ) ==> (resolution matches Resolution::Choose(offered) && offered.deep_view() == names_of(
            config.profiles@,
        )),
        !has_namesake(config.profiles@, input@) && !looks_like_url(input@) ==> resolution
            is Unresolved,
{
    match find_by_name(input, config) {
        Some(i) => {
            return Resolution::Launch(
                LaunchTarget { profile: config.profiles[i].name.clone(), url: None, app_mode: app_flag },
            );
        },
        None => {},
    }
    if str_contains(input, "://") || str_contains(input, ".") {
        match match_profile(input, config) {
            Some(found) => Resolution::Launch(
                LaunchTarget {
                    profile: found.profile,
                    url: Some(input.to_owned()),
                    app_mode: app_flag || found.app_mode,
                },
            ),
            None => Resolution::Choose(get_available_profiles(config)),
        }
    } else {
        Resolution::Unresolved
    }
}

/// Resolves a URL by the user's choice: the chosen profile is launched with
/// the URL, as an app window only if the flag says so; without a choice
/// nothing is resolved.
pub fn resolve_choice(choice: Option<String>, url: &str, app_flag: bool) -> (resolution:
    Resolution)
    ensures
        choice is None ==> resolution is Unresolved,
        choice matches Some(profile) ==> (resolution matches Resolution::Launch(target)
            && target.profile@ == profile@ && target.url.deep_view() == Some(url@)
            && target.app_mode == app_flag),
{
    match choice {
        Some(profile) => Resolution::Launch(
            LaunchTarget { profile, url: Some(url.to_owned()), app_mode: app_flag },
        ),
        None => Resolution::Unresolved,
    }
}

} // verus!
