use brolaunch::chooser::{
    chooser_request, read_reply, select_by_name, select_by_number, select_from_text,
    show_profile_chooser_with_debug, ChooserReply, ChooserRequest,
};
use brolaunch::desktop_dialog::{AvailableTools, DialogType, SessionType};
use brolaunch::environment::Environment;

fn offered() -> Vec<String> {
    vec!["work".to_string(), "home".to_string(), "bank account".to_string()]
}

const NUMBERED: [DialogType; 3] = [DialogType::Kdialog, DialogType::Hyprpicker, DialogType::Terminal];
const NAMED: [DialogType; 3] = [DialogType::Zenity, DialogType::Wofi, DialogType::Fuzzel];

#[test]
fn numbers_from_one_to_n_succeed() {
    let profiles = offered();
    assert_eq!(select_by_number(&profiles, "1"), Some("work".to_string()));
    assert_eq!(select_by_number(&profiles, "2"), Some("home".to_string()));
    assert_eq!(select_by_number(&profiles, "3"), Some("bank account".to_string()));
    assert_eq!(select_by_number(&profiles, " 2\n"), Some("home".to_string()));
    assert_eq!(select_by_number(&profiles, "+3"), Some("bank account".to_string()));
    assert_eq!(select_by_number(&profiles, "002"), Some("home".to_string()));
}

#[test]
fn numbers_out_of_range_are_rejected() {
    let profiles = offered();
    for reply in ["0", "4", "-1", "-0", "100", "18446744073709551616", "99999999999999999999999999"] {
        assert_eq!(select_by_number(&profiles, reply), None, "{:?}", reply);
    }
    assert_eq!(select_by_number(&Vec::new(), "1"), None);
    assert_eq!(select_by_number(&Vec::new(), "0"), None);
}

#[test]
fn replies_that_are_no_number_are_rejected() {
    let profiles = offered();
    for reply in ["", "\n", "work", "1.0", "1 2", "two", "1x", "+", "0x1", "١"] {
        assert_eq!(select_by_number(&profiles, reply), None, "{:?}", reply);
    }
}

#[test]
fn a_name_that_was_not_offered_is_rejected() {
    let profiles = offered();
    for reply in ["other", "Work", "wor", "works", "bank", "account", "1", "work home", "work\nhome"] {
        assert_eq!(select_by_name(&profiles, reply), None, "{:?}", reply);
    }
    assert_eq!(select_by_name(&Vec::new(), "work"), None);
}

#[test]
fn an_empty_name_is_rejected_even_if_offered() {
    let profiles = vec!["".to_string(), "work".to_string()];
    assert_eq!(select_by_name(&profiles, ""), None);
    assert_eq!(select_by_name(&profiles, "  \n"), None);
}

#[test]
fn an_offered_name_is_selected() {
    let profiles = offered();
    assert_eq!(select_by_name(&profiles, "work"), Some("work".to_string()));
    assert_eq!(select_by_name(&profiles, "home\n"), Some("home".to_string()));
    assert_eq!(select_by_name(&profiles, "  bank account \r\n"), Some("bank account".to_string()));
}

#[test]
fn each_dialog_reads_its_own_kind_of_reply() {
    let profiles = offered();
    for dialog in NUMBERED {
        assert_eq!(select_from_text(dialog, &profiles, "2\n"), Some("home".to_string()));
        assert_eq!(select_from_text(dialog, &profiles, "home\n"), None);
    }
    for dialog in NAMED {
        assert_eq!(select_from_text(dialog, &profiles, "home\n"), Some("home".to_string()));
        assert_eq!(select_from_text(dialog, &profiles, "2\n"), None);
    }
}

#[test]
fn a_failed_dialog_selects_nothing() {
    let profiles = offered();
    for dialog in NUMBERED.iter().chain(NAMED.iter()) {
        assert_eq!(read_reply(*dialog, &profiles, &ChooserReply::Failed), None);
    }
}

#[test]
fn program_output_is_decoded_and_read() {
    let profiles = vec!["work".to_string(), "caf\u{e9}".to_string(), "x\u{fffd}".to_string()];
    let output = |bytes: &[u8]| ChooserReply::Output(bytes.to_vec());
    assert_eq!(read_reply(DialogType::Zenity, &profiles, &output(b"work\n")), Some("work".to_string()));
    assert_eq!(
        read_reply(DialogType::Wofi, &profiles, &output("caf\u{e9}\n".as_bytes())),
        Some("caf\u{e9}".to_string())
    );
    assert_eq!(read_reply(DialogType::Fuzzel, &profiles, &output(b"caf\xe9\n")), None);
    assert_eq!(read_reply(DialogType::Fuzzel, &profiles, &output(b"x\xff\n")), Some("x\u{fffd}".to_string()));
    assert_eq!(read_reply(DialogType::Kdialog, &profiles, &output(b"2\n")), Some("caf\u{e9}".to_string()));
    assert_eq!(read_reply(DialogType::Kdialog, &profiles, &output(b"\xff2\n")), None);
    assert_eq!(read_reply(DialogType::Kdialog, &profiles, &output(b"")), None);
}

#[test]
fn a_terminal_line_is_read() {
    let profiles = offered();
    let line = |s: &str| ChooserReply::Line(s.to_string());
    assert_eq!(read_reply(DialogType::Terminal, &profiles, &line("3\n")), Some("bank account".to_string()));
    assert_eq!(read_reply(DialogType::Hyprpicker, &profiles, &line("1\r\n")), Some("work".to_string()));
    assert_eq!(read_reply(DialogType::Terminal, &profiles, &line("4\n")), None);
    assert_eq!(read_reply(DialogType::Terminal, &profiles, &line("\n")), None);
}

fn run_parts(request: ChooserRequest) -> (String, Vec<String>, Option<String>) {
    match request {
        ChooserRequest::Run { program, args, input } => (program, args, input),
        ChooserRequest::Ask { .. } => panic!("expected a program"),
    }
}

fn ask_parts(request: ChooserRequest) -> (Vec<String>, String) {
    match request {
        ChooserRequest::Ask { lines, prompt } => (lines, prompt),
        ChooserRequest::Run { .. } => panic!("expected a prompt"),
    }
}

#[test]
fn kdialog_gets_a_numbered_menu() {
    let (program, args, input) = run_parts(chooser_request(DialogType::Kdialog, &offered()));
    assert_eq!(program, "kdialog");
    assert_eq!(
        args,
        vec![
            "--title", "Select Profile", "--menu", "Choose a browser profile:", "1", "work", "2",
            "home", "3", "bank account"
        ]
    );
    assert_eq!(input, None);
}

#[test]
fn zenity_gets_a_list() {
    let (program, args, input) = run_parts(chooser_request(DialogType::Zenity, &offered()));
    assert_eq!(program, "zenity");
    assert_eq!(
        args,
        vec![
            "--list", "--title=Select Profile", "--text=Choose a browser profile:",
            "--column=Profile", "work", "home", "bank account"
        ]
    );
    assert_eq!(input, None);
}

#[test]
fn wofi_and_fuzzel_get_the_names_on_standard_input() {
    let (program, args, input) = run_parts(chooser_request(DialogType::Wofi, &offered()));
    assert_eq!(program, "wofi");
    assert_eq!(
        args,
        vec!["--dmenu", "--prompt=Select Profile:", "--width=300", "--height=200", "--location=center"]
    );
    assert_eq!(input, Some("work\nhome\nbank account".to_string()));
    let (program, args, input) = run_parts(chooser_request(DialogType::Fuzzel, &offered()));
    assert_eq!(program, "fuzzel");
    assert_eq!(args, vec!["--dmenu", "--prompt=Profile: "]);
    assert_eq!(input, Some("work\nhome\nbank account".to_string()));
    let (_, _, input) = run_parts(chooser_request(DialogType::Fuzzel, &Vec::new()));
    assert_eq!(input, Some(String::new()));
    let (_, _, input) = run_parts(chooser_request(DialogType::Wofi, &vec!["only".to_string()]));
    assert_eq!(input, Some("only".to_string()));
}

#[test]
fn the_terminal_gets_a_menu_and_a_prompt() {
    let (lines, prompt) = ask_parts(chooser_request(DialogType::Terminal, &offered()));
    assert_eq!(lines, vec!["\nAvailable profiles:", "  1: work", "  2: home", "  3: bank account"]);
    assert_eq!(prompt, "Select profile (1-3): ");
    let (lines, prompt) = ask_parts(chooser_request(DialogType::Hyprpicker, &offered()));
    assert_eq!(
        lines,
        vec![
            "\n\u{1fa9f} Hyprland Profile Selector", "Available profiles:", "  1: work", "  2: home",
            "  3: bank account"
        ]
    );
    assert_eq!(prompt, "Select profile (1-3): ");
    let (lines, prompt) = ask_parts(chooser_request(DialogType::Terminal, &Vec::new()));
    assert_eq!(lines, vec!["\nAvailable profiles:"]);
    assert_eq!(prompt, "Select profile (1-0): ");
}

#[test]
fn menu_numbers_go_past_nine() {
    let profiles: Vec<String> = (0..12).map(|i| format!("p{}", i)).collect();
    let (lines, prompt) = ask_parts(chooser_request(DialogType::Terminal, &profiles));
    assert_eq!(lines[9], "  9: p8");
    assert_eq!(lines[10], "  10: p9");
    assert_eq!(lines[12], "  12: p11");
    assert_eq!(prompt, "Select profile (1-12): ");
    let (_, args, _) = run_parts(chooser_request(DialogType::Kdialog, &profiles));
    assert_eq!(args[4 + 2 * 10], "11");
    assert_eq!(args[4 + 2 * 10 + 1], "p10");
}

#[test]
fn the_number_shown_selects_the_profile_beside_it() {
    let profiles: Vec<String> = (0..25).map(|i| format!("profile-{}", i)).collect();
    let (_, args, _) = run_parts(chooser_request(DialogType::Kdialog, &profiles));
    let entries = &args[4..];
    assert_eq!(entries.len(), 50);
    for pair in entries.chunks(2) {
        assert_eq!(select_by_number(&profiles, &pair[0]), Some(pair[1].clone()));
    }
}

#[test]
fn the_plan_holds_detection_and_request() {
    let mut env = Environment::new();
    env.set("XDG_CURRENT_DESKTOP", "KDE");
    env.set("XDG_SESSION_TYPE", "x11");
    let tools = AvailableTools { kdialog: false, zenity: true, wofi: true, fuzzel: false, hyprpicker: false };
    let plan = show_profile_chooser_with_debug(&offered(), false, &env, &tools);
    assert_eq!(plan.desktop.name, "kde");
    assert_eq!(plan.desktop.session_type, SessionType::X11);
    assert_eq!(plan.desktop.dialog_type, DialogType::Zenity);
    assert!(plan.notes.is_empty());
    let (program, _, _) = run_parts(plan.request);
    assert_eq!(program, "zenity");

    let plan = show_profile_chooser_with_debug(&offered(), true, &env, &AvailableTools::none());
    assert_eq!(plan.desktop.dialog_type, DialogType::Terminal);
    assert_eq!(
        plan.notes,
        vec!["\u{1f5a5}\u{fe0f}  Desktop: kde (X11)", "\u{1f4ac} Dialog system: Terminal"]
    );
    let (lines, _) = ask_parts(plan.request);
    assert_eq!(lines.len(), 4);
}
