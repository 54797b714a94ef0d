//! Detection of the desktop session and choice of the dialog tool that will
//! present the profile list.

use crate::environment::Environment;
use crate::text::{
    chars_contain_str, chars_of, chars_split, lowercase, split, str_equal, text_contains, texts,
    to_lowercase,
};
use vstd::prelude::*;

verus! {

/// The ways in which a list of profiles can be presented for a choice.
#[derive(Debug, Clone, Copy, PartialEq, Eq, Structural)]
pub enum DialogType {
    Kdialog,
    Zenity,
    Wofi,
    Fuzzel,
    Hyprpicker,
    Terminal,
}

/// The windowing system of the session.
#[derive(Debug, Clone, Copy, PartialEq, Eq, Structural)]
pub enum SessionType {
    Wayland,
    X11,
    Unknown,
}

/// Which dialog tools can be run on this machine.
#[derive(Debug, Clone, Copy, PartialEq, Eq, Structural)]
pub struct AvailableTools {
    pub kdialog: bool,
    pub zenity: bool,
    pub wofi: bool,
    pub fuzzel: bool,
    pub hyprpicker: bool,
}

/// What detection found: the desktop's name, the session type, and the dialog
/// that suits both.
#[derive(Debug, Clone)]
pub struct DesktopEnvironment {
    pub name: String,
    pub session_type: SessionType,
    pub dialog_type: DialogType,
}

/// The session type that `XDG_SESSION_TYPE` declares, if it names one,
/// whatever the case of its letters.
pub open spec fn declared_session(env: Map<Seq<char>, Seq<char>>) -> Option<SessionType> {
    if env.contains_key("XDG_SESSION_TYPE"@) {
        let declared = lowercase(env["XDG_SESSION_TYPE"@]);
        if declared == "wayland"@ {
            Some(SessionType::Wayland)
        } else if declared == "x11"@ {
            Some(SessionType::X11)
        } else {
            None
        }
    } else {
        None
    }
}

/// The session type that the display variables point to. Where both a
/// Wayland and an X11 display are announced, Wayland is preferred.
pub open spec fn displayed_session(wayland_display: bool, x11_display: bool) -> SessionType {
    if wayland_display {
        SessionType::Wayland
    } else if x11_display {
        SessionType::X11
    } else {
        SessionType::Unknown
    }
}

/// The session type of an environment: the declared one, or else the one
/// that `WAYLAND_DISPLAY` and `DISPLAY` point to.
pub open spec fn session_type_of(env: Map<Seq<char>, Seq<char>>) -> SessionType {
    match declared_session(env) {
        Some(session) => session,
        None => displayed_session(
            env.contains_key("WAYLAND_DISPLAY"@),
            env.contains_key("DISPLAY"@),
        ),
    }
}

/// The desktop that the name of a data directory gives away.
pub open spec fn desktop_in_dir(dir: Seq<char>) -> Option<Seq<char>> {
    if text_contains(dir, "kde"@) {
        Some("kde"@)
    } else if text_contains(dir, "gnome"@) {
        Some("gnome"@)
    } else if text_contains(dir, "xfce"@) {
        Some("xfce"@)
    } else {
        None
    }
}

/// The desktop that the first telling directory of the list gives away.
pub open spec fn desktop_in_dirs(dirs: Seq<Seq<char>>) -> Option<Seq<char>>
    decreases dirs.len(),
{
    if dirs.len() == 0 {
        None
    } else {
        match desktop_in_dir(dirs.first()) {
            Some(name) => Some(name),
            None => desktop_in_dirs(dirs.drop_first()),
        }
    }
}

/// The desktop's name: the lowercase value of the first variable that is set
/// among `XDG_CURRENT_DESKTOP`, `XDG_SESSION_DESKTOP` and `DESKTOP_SESSION`;
/// failing those, what the colon-separated `XDG_DATA_DIRS` gives away;
/// failing that, `unknown`.
pub open spec fn desktop_name_of(env: Map<Seq<char>, Seq<char>>) -> Seq<char> {
    if env.contains_key("XDG_CURRENT_DESKTOP"@) {
        lowercase(env["XDG_CURRENT_DESKTOP"@])
    } else if env.contains_key("XDG_SESSION_DESKTOP"@) {
        lowercase(env["XDG_SESSION_DESKTOP"@])
    } else if env.contains_key("DESKTOP_SESSION"@) {
        lowercase(env["DESKTOP_SESSION"@])
    } else if env.contains_key("XDG_DATA_DIRS"@) {
        match desktop_in_dirs(split(env["XDG_DATA_DIRS"@], ':')) {
            Some(name) => name,
            None => "unknown"@,
        }
    } else {
        "unknown"@
    }
}

/// The desktop is KDE Plasma.
pub open spec fn is_kde_family(name: Seq<char>) -> bool {
    text_contains(name, "kde"@) || text_contains(name, "plasma"@)
}

/// The desktop is GNOME or one of its relatives, and not KDE.
pub open spec fn is_gnome_family(name: Seq<char>) -> bool {
    !is_kde_family(name) && (text_contains(name, "gnome"@) || text_contains(name, "unity"@)
        || text_contains(name, "cinnamon"@))
}

/// The desktop is Hyprland, and none of the above.
pub open spec fn is_hyprland(name: Seq<char>) -> bool {
    !is_kde_family(name) && !is_gnome_family(name) && text_contains(name, "hyprland"@)
}

/// The desktop is Sway or River, and none of the above.
pub open spec fn is_sway_family(name: Seq<char>) -> bool {
    !is_kde_family(name) && !is_gnome_family(name) && !is_hyprland(name) && (text_contains(
        name,
        "sway"@,
    ) || text_contains(name, "river"@))
}

/// The first of two dialogs that is available.
pub open spec fn first_of_two(
    first: DialogType,
    second: DialogType,
    tools: AvailableTools,
) -> Option<DialogType> {
    if tools.offers(first) {
        Some(first)
    } else if tools.offers(second) {
        Some(second)
    } else {
        None
    }
}

/// The choice of a Wayland compositor: Wofi, then Fuzzel, then Zenity.
pub open spec fn wayland_choice(tools: AvailableTools) -> Option<DialogType> {
    if tools.wofi {
        Some(DialogType::Wofi)
    } else if tools.fuzzel {
        Some(DialogType::Fuzzel)
    } else if tools.zenity {
        Some(DialogType::Zenity)
    } else {
        None
    }
}

/// The dialog that the desktop itself calls for, if one of its tools is
/// available.
pub open spec fn desktop_choice(
    name: Seq<char>,
    session: SessionType,
    tools: AvailableTools,
) -> Option<DialogType> {
    if is_kde_family(name) {
        first_of_two(DialogType::Kdialog, DialogType::Zenity, tools)
    } else if is_gnome_family(name) {
        first_of_two(DialogType::Zenity, DialogType::Kdialog, tools)
    } else if is_hyprland(name) {
        if session == SessionType::Wayland {
            if tools.hyprpicker {
                Some(DialogType::Hyprpicker)
            } else {
                wayland_choice(tools)
            }
        } else {
            first_of_two(DialogType::Zenity, DialogType::Kdialog, tools)
        }
    } else if is_sway_family(name) {
        if session == SessionType::Wayland {
            wayland_choice(tools)
        } else {
            first_of_two(DialogType::Zenity, DialogType::Kdialog, tools)
        }
    } else {
        None
    }
}

/// The dialog for any desktop: on Wayland Wofi, then Fuzzel; then, on every
/// session, Zenity, then Kdialog; and the terminal when no tool is available.
pub open spec fn generic_choice(session: SessionType, tools: AvailableTools) -> DialogType {
    if session == SessionType::Wayland && tools.wofi {
        DialogType::Wofi
    } else if session == SessionType::Wayland && tools.fuzzel {
        DialogType::Fuzzel
    } else if tools.zenity {
        DialogType::Zenity
    } else if tools.kdialog {
        DialogType::Kdialog
    } else {
        DialogType::Terminal
    }
}

/// The dialog to use: the desktop's own choice, or else the generic one.
pub open spec fn best_dialog(
    name: Seq<char>,
    session: SessionType,
    tools: AvailableTools,
) -> DialogType {
    match desktop_choice(name, session, tools) {
        Some(dialog) => dialog,
        None => generic_choice(session, tools),
    }
}

impl SessionType {
    /// The session type's name in words.
    pub open spec fn label(self) -> Seq<char> {
        match self {
            SessionType::Wayland => "Wayland"@,
            SessionType::X11 => "X11"@,
            SessionType::Unknown => "Unknown"@,
        }
    }

    /// The session type's name.
    pub fn name(&self) -> (name: &'static str)
        ensures
            name@ == self.label(),
    {
        match self {
            SessionType::Wayland => "Wayland",
            SessionType::X11 => "X11",
            SessionType::Unknown => "Unknown",
        }
    }
}

impl DialogType {
    /// The dialog's name in words.
    pub open spec fn label(self) -> Seq<char> {
        match self {
            DialogType::Kdialog => "Kdialog"@,
            DialogType::Zenity => "Zenity"@,
            DialogType::Wofi => "Wofi"@,
            DialogType::Fuzzel => "Fuzzel"@,
            DialogType::Hyprpicker => "Hyprpicker"@,
            DialogType::Terminal => "Terminal"@,
        }
    }

    /// The dialog's name.
    pub fn name(&self) -> (name: &'static str)
        ensures
            name@ == self.label(),
    {
        match self {
            DialogType::Kdialog => "Kdialog",
            DialogType::Zenity => "Zenity",
            DialogType::Wofi => "Wofi",
            DialogType::Fuzzel => "Fuzzel",
            DialogType::Hyprpicker => "Hyprpicker",
            DialogType::Terminal => "Terminal",
        }
    }
}

impl AvailableTools {
    /// Whether the dialog can be shown. The terminal always can.
    pub open spec fn offers(self, dialog: DialogType) -> bool {
        match dialog {
            DialogType::Kdialog => self.kdialog,
            DialogType::Zenity => self.zenity,
            DialogType::Wofi => self.wofi,
            DialogType::Fuzzel => self.fuzzel,
            DialogType::Hyprpicker => self.hyprpicker,
            DialogType::Terminal => true,
        }
    }

    /// No tool is available.
    pub fn none() -> (tools: AvailableTools)
        ensures
            tools == (AvailableTools {
                kdialog: false,
                zenity: false,
                wofi: false,
                fuzzel: false,
                hyprpicker: false,
            }),
    {
        AvailableTools { kdialog: false, zenity: false, wofi: false, fuzzel: false, hyprpicker: false }
    }
}

fn first_available(first: DialogType, second: DialogType, tools: &AvailableTools) -> (r: Option<
    DialogType,
>)
    ensures
        r == first_of_two(first, second, *tools),
{
    if is_available(first, tools) {
        Some(first)
    } else if is_available(second, tools) {
        Some(second)
    } else {
        None
    }
}

fn is_available(dialog: DialogType, tools: &AvailableTools) -> (r: bool)
    ensures
        r == tools.offers(dialog),
{
    match dialog {
        DialogType::Kdialog => tools.kdialog,
        DialogType::Zenity => tools.zenity,
        DialogType::Wofi => tools.wofi,
        DialogType::Fuzzel => tools.fuzzel,
        DialogType::Hyprpicker => tools.hyprpicker,
        DialogType::Terminal => true,
    }
}

fn wayland_available(tools: &AvailableTools) -> (r: Option<DialogType>)
    ensures
        r == wayland_choice(*tools),
{
    if tools.wofi {
        Some(DialogType::Wofi)
    } else if tools.fuzzel {
        Some(DialogType::Fuzzel)
    } else if tools.zenity {
        Some(DialogType::Zenity)
    } else {
        None
    }
}

fn desktop_in(dir: &Vec<char>) -> (r: Option<String>)
    ensures
        r.deep_view() == desktop_in_dir(dir@),
{
    if chars_contain_str(dir, "kde") {
        Some("kde".to_string())
    } else if chars_contain_str(dir, "gnome") {
        Some("gnome".to_string())
    } else if chars_contain_str(dir, "xfce") {
        Some("xfce".to_string())
    } else {
        None
    }
}

impl DesktopEnvironment {
    /// Detects session type, desktop name and dialog from the environment
    /// and the tools at hand.
    pub fn detect(env: &Environment, tools: &AvailableTools) -> (desktop: DesktopEnvironment)
        ensures
            desktop.session_type == session_type_of(env@),
            desktop.name@ == desktop_name_of(env@),
            desktop.dialog_type == best_dialog(desktop.name@, desktop.session_type, *tools),
            tools.offers(desktop.dialog_type),
    {
        let session_type = Self::detect_session_type(env);
        let desktop_name = Self::detect_desktop_name(env);
        let dialog_type = Self::detect_best_dialog(desktop_name.as_str(), &session_type, tools);
        DesktopEnvironment { name: desktop_name, session_type, dialog_type }
    }

    /// The session type: what `XDG_SESSION_TYPE` declares, or else what the
    /// display variables point to. When both displays are announced the
    /// answer is Wayland, unless X11 was declared.
    pub fn detect_session_type(env: &Environment) -> (session: SessionType)
        ensures
            session == session_type_of(env@),
            env@.contains_key("WAYLAND_DISPLAY"@) && env@.contains_key("DISPLAY"@)
                && declared_session(env@) != Some(SessionType::X11) ==> session
                == SessionType::Wayland,
            !env@.contains_key("XDG_SESSION_TYPE"@) && !env@.contains_key("WAYLAND_DISPLAY"@)
                && !env@.contains_key("DISPLAY"@) ==> session == SessionType::Unknown,
    {
        match env.get("XDG_SESSION_TYPE") {
            Some(declared) => {
                let lower = to_lowercase(declared.as_str());
                if str_equal(lower.as_str(), "wayland") {
                    return SessionType::Wayland;
                }
                if str_equal(lower.as_str(), "x11") {
                    return SessionType::X11;
                }
            },
            None => {},
        }
        let wayland_display = env.is_set("WAYLAND_DISPLAY");
        let x11_display = env.is_set("DISPLAY");
        if wayland_display {
            SessionType::Wayland
        } else if x11_display {
            SessionType::X11
        } else {
            SessionType::Unknown
        }
    }

    /// The desktop's name, in lowercase, or `unknown`.
    pub fn detect_desktop_name(env: &Environment) -> (name: String)
        ensures
            name@ == desktop_name_of(env@),
    {
        match env.get("XDG_CURRENT_DESKTOP") {
            Some(desktop) => {
                return to_lowercase(desktop.as_str());
            },
            None => {},
        }
        match env.get("XDG_SESSION_DESKTOP") {
            Some(desktop) => {
                return to_lowercase(desktop.as_str());
            },
            None => {},
        }
        match env.get("DESKTOP_SESSION") {
            Some(desktop) => {
                return to_lowercase(desktop.as_str());
            },
            None => {},
        }
        match env.get("XDG_DATA_DIRS") {
            Some(data_dirs) => {
                let dirs = chars_split(&chars_of(data_dirs.as_str()), ':');
                let ghost all = texts(dirs@);
                let mut i: usize = 0;
                assert(all.skip(0) =~= all);
                while i < dirs.len()
                    invariant
                        i <= dirs.len(),
                        all == texts(dirs@),
                        desktop_in_dirs(all) == desktop_in_dirs(all.skip(i as int)),
                        desktop_name_of(env@) == (match desktop_in_dirs(all) {
                            Some(name) => name,
                            None => "unknown"@,
                        }),
                    decreases dirs.len() - i,
                {
                    assert(all.skip(i as int).first() == dirs[i as int]@);
                    assert(all.skip(i as int).drop_first() =~= all.skip(i + 1));
                    match desktop_in(&dirs[i]) {
                        Some(found) => {
                            return found;
                        },
                        None => {},
                    }
                    i += 1;
                }
            },
            None => {},
        }
        "unknown".to_string()
    }

    /// The dialog that suits the desktop and the session, among the tools
    /// at hand. A desktop of the GNOME family gets Zenity when Zenity is
    /// available, else Kdialog when that is, else the generic choice; the
    /// chosen dialog is always one that can be shown.
    pub fn detect_best_dialog(
        desktop_name: &str,
        session_type: &SessionType,
        tools: &AvailableTools,
    ) -> (dialog: DialogType)
        ensures
            dialog == best_dialog(desktop_name@, *session_type, *tools),
            tools.offers(dialog),
            is_gnome_family(desktop_name@) ==> dialog == (if tools.zenity {
                DialogType::Zenity
            } else if tools.kdialog {
                DialogType::Kdialog
            } else {
                generic_choice(*session_type, *tools)
            }),
            is_kde_family(desktop_name@) ==> dialog == (if tools.kdialog {
                DialogType::Kdialog
            } else if tools.zenity {
                DialogType::Zenity
            } else {
                generic_choice(*session_type, *tools)
            }),
    {
        let name = chars_of(desktop_name);
        let wayland = *session_type == SessionType::Wayland;
        let specific = if chars_contain_str(&name, "kde") || chars_contain_str(&name, "plasma") {
            first_available(DialogType::Kdialog, DialogType::Zenity, tools)
        } else if chars_contain_str(&name, "gnome") || chars_contain_str(&name, "unity")
            || chars_contain_str(&name, "cinnamon") {
            first_available(DialogType::Zenity, DialogType::Kdialog, tools)
        } else if chars_contain_str(&name, "hyprland") {
            if wayland {
                if tools.hyprpicker {
                    Some(DialogType::Hyprpicker)
                } else {
                    wayland_available(tools)
                }
            } else {
                first_available(DialogType::Zenity, DialogType::Kdialog, tools)
            }
        } else if chars_contain_str(&name, "sway") || chars_contain_str(&name, "river") {
            if wayland {
                wayland_available(tools)
            } else {
                first_available(DialogType::Zenity, DialogType::Kdialog, tools)
            }
        } else {
            None
        };
        match specific {
            Some(dialog) => dialog,
            None => {
                if wayland && tools.wofi {
                    DialogType::Wofi
                } else if wayland && tools.fuzzel {
                    DialogType::Fuzzel
                } else if tools.zenity {
                    DialogType::Zenity
                } else if tools.kdialog {
                    DialogType::Kdialog
                } else {
                    DialogType::Terminal
                }
            },
        }
    }
}

} // verus!
