//! The interactive choice of a profile: what to show for each kind of dialog,
//! and how to read the answer.
//!
//! Showing the dialog is the caller's business. This module says what is to
//! be run or printed, and decides what the reply selects. A reply selects
//! nothing unless it points at one of the profiles that were offered.

use crate::desktop_dialog::{
    best_dialog, desktop_name_of, session_type_of, AvailableTools, DesktopEnvironment, DialogType,
    SessionType,
};
use crate::environment::Environment;
use crate::text::{
    chars_equal, chars_of, chars_parse_index, chars_trimmed, decimal_string, decimal_text,
    decode_lossy, is_digit, is_whitespace, join, joined, lemma_decimal_text_trimmed,
    lemma_decimal_text_value, lemma_parse_decimal_text, lemma_trim_end_keeps_first, parse_index,
    trim, trim_start, utf8_lossy, without_plus,
};
use vstd::prelude::*;
use vstd::string::*;

verus! {

/// What the caller is asked to do in order to obtain a choice.
#[derive(Debug, Clone)]
pub enum ChooserRequest {
    /// Run `program` with `args`, write `input` (if any) to its standard
    /// input, and collect its standard output.
    Run { program: String, args: Vec<String>, input: Option<String> },
    /// Print each of `lines` on a line of its own, then `prompt` without a
    /// line break, and read one line from the terminal.
    Ask { lines: Vec<String>, prompt: String },
}

/// What came back.
#[derive(Debug, Clone)]
pub enum ChooserReply {
    /// The program could not be run or ended in failure, or no line could be
    /// read.
    Failed,
    /// The standard output of a program that ended in success.
    Output(Vec<u8>),
    /// The line read from the terminal.
    Line(String),
}

/// The mathematical content of a request.
pub enum RequestModel {
    Run { program: Seq<char>, args: Seq<Seq<char>>, input: Option<Seq<char>> },
    Ask { lines: Seq<Seq<char>>, prompt: Seq<char> },
}

impl View for ChooserRequest {
    type V = RequestModel;

    open spec fn view(&self) -> RequestModel {
        match *self {
            ChooserRequest::Run { program, args, input } => RequestModel::Run {
                program: program@,
                args: args.deep_view(),
                input: input.deep_view(),
            },
            ChooserRequest::Ask { lines, prompt } => RequestModel::Ask {
                lines: lines.deep_view(),
                prompt: prompt@,
            },
        }
    }
}

/// Dialogs that show a numbered menu and are answered with a number.
pub open spec fn is_numbered(dialog: DialogType) -> bool {
    dialog == DialogType::Kdialog || dialog == DialogType::Hyprpicker || dialog
        == DialogType::Terminal
}

/// The menu entries: each profile preceded by its number, counting from one.
pub open spec fn numbered_entries(profiles: Seq<Seq<char>>) -> Seq<Seq<char>>
    decreases profiles.len(),
{
    if profiles.len() == 0 {
        Seq::empty()
    } else {
        numbered_entries(profiles.drop_last()).push(decimal_text(profiles.len())).push(
            profiles.last(),
        )
    }
}

/// The menu line of the profile at `index`.
pub open spec fn menu_line(profiles: Seq<Seq<char>>, index: int) -> Seq<char> {
    "  "@ + decimal_text((index + 1) as nat) + ": "@ + profiles[index]
}

/// The menu as printed on a terminal, one line for each profile.
pub open spec fn menu_lines(profiles: Seq<Seq<char>>) -> Seq<Seq<char>> {
    Seq::new(profiles.len(), |i: int| menu_line(profiles, i))
}

/// The prompt that asks for a number between one and `count`.
pub open spec fn number_prompt(count: nat) -> Seq<char> {
    "Select profile (1-"@ + decimal_text(count) + "): "@
}

/// What is to be done to show `profiles` in the given kind of dialog.
pub open spec fn request_for(dialog: DialogType, profiles: Seq<Seq<char>>) -> RequestModel {
    match dialog {
        DialogType::Kdialog => RequestModel::Run {
            program: "kdialog"@,
            args: seq!["--title"@, "Select Profile"@, "--menu"@, "Choose a browser profile:"@]
                + numbered_entries(profiles),
            input: None,
        },
        DialogType::Zenity => RequestModel::Run {
            program: "zenity"@,
            args: seq![
                "--list"@,
                "--title=Select Profile"@,
                "--text=Choose a browser profile:"@,
                "--column=Profile"@,
            ] + profiles,
            input: None,
        },
        DialogType::Wofi => RequestModel::Run {
            program: "wofi"@,
            args: seq![
                "--dmenu"@,
                "--prompt=Select Profile:"@,
                "--width=300"@,
                "--height=200"@,
                "--location=center"@,
            ],
            input: Some(joined(profiles, "\n"@)),
        },
        DialogType::Fuzzel => RequestModel::Run {
            program: "fuzzel"@,
            args: seq!["--dmenu"@, "--prompt=Profile: "@],
            input: Some(joined(profiles, "\n"@)),
        },
        DialogType::Hyprpicker => RequestModel::Ask {
            lines: seq!["\n\u{1fa9f} Hyprland Profile Selector"@, "Available profiles:"@]
                + menu_lines(profiles),
            prompt: number_prompt(profiles.len()),
        },
        DialogType::Terminal => RequestModel::Ask {
            lines: seq!["\nAvailable profiles:"@] + menu_lines(profiles),
            prompt: number_prompt(profiles.len()),
        },
    }
}

/// What a numeric answer selects: the profile at that position, counting
/// from one. Whitespace around the number is ignored. An answer that is no
/// number, or a number outside `1..=N`, selects nothing.
pub open spec fn numbered_selection(profiles: Seq<Seq<char>>, reply: Seq<char>) -> Option<
    Seq<char>,
> {
    match parse_index(trim(reply)) {
        Some(number) => if 1 <= number <= profiles.len() {
            Some(profiles[number - 1])
        } else {
            None
        },
        None => None,
    }
}

/// What an answer by name selects: itself, if it is one of the profiles.
/// Whitespace around the name is ignored. An empty answer, or a name that
/// was not offered, selects nothing.
pub open spec fn named_selection(profiles: Seq<Seq<char>>, reply: Seq<char>) -> Option<
    Seq<char>,
> {
    let name = trim(reply);
    if name.len() > 0 && profiles.contains(name) {
        Some(name)
    } else {
        None
    }
}

/// What a textual reply selects in the given kind of dialog.
pub open spec fn selection(dialog: DialogType, profiles: Seq<Seq<char>>, reply: Seq<char>)
    -> Option<Seq<char>> {
    if is_numbered(dialog) {
        numbered_selection(profiles, reply)
    } else {
        named_selection(profiles, reply)
    }
}

/// The text of a reply, if there is one. Program output is decoded leniently.
pub open spec fn reply_text(reply: ChooserReply) -> Option<Seq<char>> {
    match reply {
        ChooserReply::Failed => None,
        ChooserReply::Output(bytes) => Some(utf8_lossy(bytes@)),
        ChooserReply::Line(line) => Some(line@),
    }
}

/// Reads a numeric answer. It selects a profile exactly when it is a number
/// from 1 to the number of profiles; zero, a negative number, a larger
/// number and anything that is no number select nothing.
pub fn select_by_number(profiles: &[String], reply: &str) -> (chosen: Option<String>)
    ensures
        chosen.deep_view() == numbered_selection(profiles.deep_view(), reply@),
        chosen is Some <==> (exists|number: usize|
            parse_index(trim(reply@)) == Some(number) && 1 <= number <= profiles.len()),
        chosen matches Some(name) ==> profiles.deep_view().contains(name@),
{
    let answer = chars_trimmed(&chars_of(reply));
    match chars_parse_index(&answer) {
        Some(number) => {
            if number > 0 && number <= profiles.len() {
                let name = profiles[number - 1].clone();
                assert(profiles.deep_view()[number - 1] == name@);
                Some(name)
            } else {
                None
            }
        },
        None => None,
    }
}

/// Reads an answer by name. A reply that is not one of the offered profiles
/// is rejected, empty or not.
pub fn select_by_name(profiles: &[String], reply: &str) -> (chosen: Option<String>)
    ensures
        chosen.deep_view() == named_selection(profiles.deep_view(), reply@),
        !profiles.deep_view().contains(trim(reply@)) ==> chosen is None,
        chosen matches Some(name) ==> profiles.deep_view().contains(name@),
{
    let answer = chars_trimmed(&chars_of(reply));
    if answer.len() == 0 {
        return None;
    }
    let mut i: usize = 0;
    while i < profiles.len()
        invariant
            i <= profiles.len(),
            answer@ == trim(reply@),
            answer@.len() > 0,
            forall|k: int| 0 <= k < i ==> profiles.deep_view()[k] != answer@,
        decreases profiles.len() - i,
    {
        let candidate = chars_of(profiles[i].as_str());
        if chars_equal(&candidate, &answer) {
            let name = profiles[i].clone();
            assert(profiles.deep_view()[i as int] == name@);
            return Some(name);
        }
        i += 1;
    }
    None
}

/// Reads a textual reply as the given kind of dialog demands.
pub fn select_from_text(dialog: DialogType, profiles: &[String], reply: &str) -> (chosen:
    Option<String>)
    ensures
        chosen.deep_view() == selection(dialog, profiles.deep_view(), reply@),
        chosen matches Some(name) ==> profiles.deep_view().contains(name@),
{
    match dialog {
        DialogType::Kdialog | DialogType::Hyprpicker | DialogType::Terminal => select_by_number(
            profiles,
            reply,
        ),
        DialogType::Zenity | DialogType::Wofi | DialogType::Fuzzel => select_by_name(
            profiles,
            reply,
        ),
    }
}

/// Decides what a reply selects. A failed dialog selects nothing, and
/// whatever is selected is one of the profiles that were offered.
pub fn read_reply(dialog: DialogType, profiles: &[String], reply: &ChooserReply) -> (chosen:
    Option<String>)
    ensures
        chosen.deep_view() == (match reply_text(*reply) {
            Some(text) => selection(dialog, profiles.deep_view(), text),
            None => None,
        }),
        chosen matches Some(name) ==> profiles.deep_view().contains(name@),
{
    match reply {
        ChooserReply::Failed => None,
        ChooserReply::Output(bytes) => {
            let text = decode_lossy(bytes);
            select_from_text(dialog, profiles, text.as_str())
        },
        ChooserReply::Line(line) => select_from_text(dialog, profiles, line.as_str()),
    }
}

fn push_text(list: &mut Vec<String>, text: String)
    ensures
        final(list).deep_view() == old(list).deep_view().push(text@),
{
    list.push(text);
    assert(list.deep_view() =~= old(list).deep_view().push(text@));
}

fn push_numbered_entries(args: &mut Vec<String>, profiles: &[String])
    ensures
        final(args).deep_view() == old(args).deep_view() + numbered_entries(profiles.deep_view()),
{
    let ghost start = args.deep_view();
    let ghost all = profiles.deep_view();
    let mut i: usize = 0;
    assert(all.take(0) =~= Seq::<Seq<char>>::empty());
    assert(args.deep_view() =~= start + numbered_entries(all.take(0)));
    while i < profiles.len()
        invariant
            i <= profiles.len(),
            all == profiles.deep_view(),
            args.deep_view() == start + numbered_entries(all.take(i as int)),
        decreases profiles.len() - i,
    {
        let ghost next = all.take(i + 1);
        assert(next.drop_last() =~= all.take(i as int));
        assert(next.last() == profiles[i as int]@);
        push_text(args, decimal_string(i + 1));
        push_text(args, profiles[i].clone());
        assert(args.deep_view() =~= start + numbered_entries(next));
        i += 1;
    }
    assert(all.take(profiles.len() as int) =~= all);
}

fn push_all(args: &mut Vec<String>, profiles: &[String])
    ensures
        final(args).deep_view() == old(args).deep_view() + profiles.deep_view(),
{
    let ghost start = args.deep_view();
    let ghost all = profiles.deep_view();
    let mut i: usize = 0;
    assert(args.deep_view() =~= start + all.take(0));
    while i < profiles.len()
        invariant
            i <= profiles.len(),
            all == profiles.deep_view(),
            args.deep_view() == start + all.take(i as int),
        decreases profiles.len() - i,
    {
        push_text(args, profiles[i].clone());
        assert(args.deep_view() =~= start + all.take(i + 1));
        i += 1;
    }
    assert(all.take(profiles.len() as int) =~= all);
}

fn push_menu_lines(lines: &mut Vec<String>, profiles: &[String])
    ensures
        final(lines).deep_view() == old(lines).deep_view() + menu_lines(profiles.deep_view()),
{
    let ghost start = lines.deep_view();
    let ghost all = profiles.deep_view();
    let mut i: usize = 0;
    assert(lines.deep_view() =~= start + menu_lines(all).take(0));
    while i < profiles.len()
        invariant
            i <= profiles.len(),
            all == profiles.deep_view(),
            lines.deep_view() == start + menu_lines(all).take(i as int),
        decreases profiles.len() - i,
    {
        let mut line = "  ".to_string();
        let number = decimal_string(i + 1);
        line.append(number.as_str());
        line.append(": ");
        line.append(profiles[i].as_str());
        assert(line@ =~= menu_line(all, i as int));
        push_text(lines, line);
        assert(lines.deep_view() =~= start + menu_lines(all).take(i + 1));
        i += 1;
    }
    assert(menu_lines(all).take(profiles.len() as int) =~= menu_lines(all));
}

fn prompt_for(count: usize) -> (prompt: String)
    ensures
        prompt@ == number_prompt(count as nat),
{
    let mut prompt = "Select profile (1-".to_string();
    let number = decimal_string(count);
    prompt.append(number.as_str());
    prompt.append("): ");
    prompt
}

/// Says what is to be run or printed to show `profiles` in the given kind
/// of dialog.
pub fn chooser_request(dialog: DialogType, profiles: &[String]) -> (request: ChooserRequest)
    ensures
        request@ == request_for(dialog, profiles.deep_view()),
{
    let mut list: Vec<String> = Vec::new();
    assert(list.deep_view() =~= Seq::<Seq<char>>::empty());
    match dialog {
        DialogType::Kdialog => {
            push_text(&mut list, "--title".to_string());
            push_text(&mut list, "Select Profile".to_string());
            push_text(&mut list, "--menu".to_string());
            push_text(&mut list, "Choose a browser profile:".to_string());
            push_numbered_entries(&mut list, profiles);
            let request = ChooserRequest::Run {
                program: "kdialog".to_string(),
                args: list,
                input: None,
            };
            assert(request@->Run_args =~= request_for(dialog, profiles.deep_view())->Run_args);
            request
        },
        DialogType::Zenity => {
            push_text(&mut list, "--list".to_string());
            push_text(&mut list, "--title=Select Profile".to_string());
            push_text(&mut list, "--text=Choose a browser profile:".to_string());
            push_text(&mut list, "--column=Profile".to_string());
            push_all(&mut list, profiles);
            let request = ChooserRequest::Run {
                program: "zenity".to_string(),
                args: list,
                input: None,
            };
            assert(request@->Run_args =~= request_for(dialog, profiles.deep_view())->Run_args);
            request
        },
        DialogType::Wofi => {
            push_text(&mut list, "--dmenu".to_string());
            push_text(&mut list, "--prompt=Select Profile:".to_string());
            push_text(&mut list, "--width=300".to_string());
            push_text(&mut list, "--height=200".to_string());
            push_text(&mut list, "--location=center".to_string());
            let request = ChooserRequest::Run {
                program: "wofi".to_string(),
                args: list,
                input: Some(join(profiles, "\n")),
            };
            assert(request@->Run_args =~= request_for(dialog, profiles.deep_view())->Run_args);
            request
        },
        DialogType::Fuzzel => {
            push_text(&mut list, "--dmenu".to_string());
            push_text(&mut list, "--prompt=Profile: ".to_string());
            let request = ChooserRequest::Run {
                program: "fuzzel".to_string(),
                args: list,
                input: Some(join(profiles, "\n")),
            };
            assert(request@->Run_args =~= request_for(dialog, profiles.deep_view())->Run_args);
            request
        },
        DialogType::Hyprpicker => {
            push_text(&mut list, "\n\u{1fa9f} Hyprland Profile Selector".to_string());
            push_text(&mut list, "Available profiles:".to_string());
            push_menu_lines(&mut list, profiles);
            let request = ChooserRequest::Ask { lines: list, prompt: prompt_for(profiles.len()) };
            assert(request@->Ask_lines =~= request_for(dialog, profiles.deep_view())->Ask_lines);
            request
        },
        DialogType::Terminal => {
            push_text(&mut list, "\nAvailable profiles:".to_string());
            push_menu_lines(&mut list, profiles);
            let request = ChooserRequest::Ask { lines: list, prompt: prompt_for(profiles.len()) };
            assert(request@->Ask_lines =~= request_for(dialog, profiles.deep_view())->Ask_lines);
            request
        },
    }
}

/// Everything that is settled before the dialog is shown.
#[derive(Debug, Clone)]
pub struct ChooserPlan {
    /// What detection found.
    pub desktop: DesktopEnvironment,
    /// Lines to print before the dialog; none unless they were asked for.
    pub notes: Vec<String>,
    /// What to run or print for the dialog itself.
    pub request: ChooserRequest,
}

/// The lines that report what detection found.
pub open spec fn detection_notes(name: Seq<char>, session: SessionType, dialog: DialogType) -> Seq<
    Seq<char>,
> {
    seq![
        "\u{1f5a5}\u{fe0f}  Desktop: "@ + name + " ("@ + session.label() + ")"@,
        "\u{1f4ac} Dialog system: "@ + dialog.label(),
    ]
}

/// Prepares the profile chooser: detects the desktop, picks the dialog for
/// it, and says what is to be shown. With `verbose`, the plan also holds the
/// lines that report the detected desktop and dialog. The reply to the
/// request is read by `read_reply`, with the plan's dialog type.
pub fn show_profile_chooser_with_debug(
    profiles: &[String],
    verbose: bool,
    env: &Environment,
    tools: &AvailableTools,
) -> (plan: ChooserPlan)
    ensures
        plan.desktop.session_type == session_type_of(env@),
        plan.desktop.name@ == desktop_name_of(env@),
        plan.desktop.dialog_type == best_dialog(
            desktop_name_of(env@),
            session_type_of(env@),
            *tools,
        ),
        plan.request@ == request_for(plan.desktop.dialog_type, profiles.deep_view()),
        plan.notes.deep_view() == (if verbose {
            detection_notes(plan.desktop.name@, plan.desktop.session_type, plan.desktop.dialog_type)
        } else {
            Seq::empty()
        }),
{
    let desktop = DesktopEnvironment::detect(env, tools);
    let mut notes: Vec<String> = Vec::new();
    assert(notes.deep_view() =~= Seq::<Seq<char>>::empty());
    if verbose {
        let mut first = "\u{1f5a5}\u{fe0f}  Desktop: ".to_string();
        first.append(desktop.name.as_str());
        first.append(" (");
        first.append(desktop.session_type.name());
        first.append(")");
        let mut second = "\u{1f4ac} Dialog system: ".to_string();
        second.append(desktop.dialog_type.name());
        push_text(&mut notes, first);
        push_text(&mut notes, second);
        assert(notes.deep_view() =~= detection_notes(
            desktop.name@,
            desktop.session_type,
            desktop.dialog_type,
        ));
    }
    let request = chooser_request(desktop.dialog_type, profiles);
    ChooserPlan { desktop, notes, request }
}

/// In a numbered menu, the number shown beside a profile selects that
/// profile: every number from 1 to the number of profiles succeeds.
pub proof fn lemma_shown_number_selects(profiles: Seq<Seq<char>>, index: int)
    requires
        0 <= index < profiles.len(),
        profiles.len() <= usize::MAX,
    ensures
        numbered_selection(profiles, decimal_text((index + 1) as nat)) == Some(profiles[index]),
{
    lemma_decimal_text_trimmed((index + 1) as nat);
    lemma_parse_decimal_text((index + 1) as usize);
}

/// In a numbered menu, zero and every number above the number of profiles
/// select nothing.
pub proof fn lemma_number_out_of_range_rejected(profiles: Seq<Seq<char>>, number: nat)
    requires
        number == 0 || number > profiles.len(),
    ensures
        numbered_selection(profiles, decimal_text(number)) is None,
{
    lemma_decimal_text_trimmed(number);
    lemma_decimal_text_value(number);
}

/// In a numbered menu, an answer that begins with a minus sign selects
/// nothing.
pub proof fn lemma_negative_number_rejected(profiles: Seq<Seq<char>>, digits: Seq<char>)
    ensures
        numbered_selection(profiles, seq!['-'] + digits) is None,
{
    let reply = seq!['-'] + digits;
    let answer = trim(reply);
    assert(!is_whitespace('-'));
    assert(trim_start(reply) == reply);
    lemma_trim_end_keeps_first(reply);
    assert(answer.len() > 0 && answer.first() == '-');
    assert(!is_digit(without_plus(answer)[0]));
}

/// In a dialog answered by name, the answer selects a profile exactly when
/// it is, apart from surrounding whitespace, a non-empty name among those
/// offered; and then it selects that name.
pub proof fn lemma_unlisted_name_rejected(profiles: Seq<Seq<char>>, reply: Seq<char>)
    ensures
        !profiles.contains(trim(reply)) ==> named_selection(profiles, reply) is None,
        named_selection(profiles, reply) matches Some(name) ==> profiles.contains(name) && name
            == trim(reply),
{
}

} // verus!
