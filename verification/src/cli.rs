//! Command-line arguments.

use vstd::prelude::*;

use crate::text::same_text;

verus! {

/// The command that one run of the plugin carries out.
#[derive(Debug, Clone, PartialEq, Eq)]
pub enum CliAction {
    /// Handle the herdr event found in the environment (no arguments).
    Event,
    /// `--test`: send a test notification.
    Test,
    /// `--focus-latest`: focus the pane of the newest active notification.
    FocusLatest,
    /// `--on-click <pane-id>`: the user clicked that pane's notification.
    OnClick(String),
    /// `-h`, `--help`
    Help,
    /// `-V`, `--version`
    Version,
}

pub enum CliCommand {
    Event,
    Test,
    FocusLatest,
    OnClick(Seq<char>),
    Help,
    Version,
}

impl View for CliAction {
    type V = CliCommand;

    open spec fn view(&self) -> CliCommand {
        match self {
            CliAction::Event => CliCommand::Event,
            CliAction::Test => CliCommand::Test,
            CliAction::FocusLatest => CliCommand::FocusLatest,
            CliAction::OnClick(p) => CliCommand::OnClick(p@),
            CliAction::Help => CliCommand::Help,
            CliAction::Version => CliCommand::Version,
        }
    }
}

pub open spec fn combine_error(arg: Seq<char>) -> Seq<char> {
    "cannot combine "@ + arg + " with another command"@
}

pub open spec fn unknown_argument_error(arg: Seq<char>) -> Seq<char> {
    "unknown argument: "@ + arg + "; run with --help for usage"@
}

pub open spec fn missing_pane_id_error() -> Seq<char> {
    "--on-click requires a pane id"@
}

/// The command of a flag that takes no value.
pub open spec fn flag_command(arg: Seq<char>) -> Option<CliCommand> {
    if arg == "--test"@ {
        Some(CliCommand::Test)
    } else if arg == "--focus-latest"@ {
        Some(CliCommand::FocusLatest)
    } else if arg == "-h"@ || arg == "--help"@ {
        Some(CliCommand::Help)
    } else if arg == "-V"@ || arg == "--version"@ {
        Some(CliCommand::Version)
    } else {
        None
    }
}

/// Parsing `args[i..]` after the earlier arguments chose `action`.
/// A command may be chosen once: a second one is an error naming the flag that
/// came second. `--on-click` takes the next argument, which must not be empty.
/// Anything else is an unknown argument. The first error ends the parse.
pub open spec fn parse_from(args: Seq<Seq<char>>, i: int, action: CliCommand) -> Result<
    CliCommand,
    Seq<char>,
>
    decreases args.len() - i,
{
    if i < 0 || i >= args.len() {
        Ok(action)
    } else {
        let arg = args[i];
        if arg == "--on-click"@ {
            if i + 1 >= args.len() || args[i + 1].len() == 0 {
                Err(missing_pane_id_error())
            } else if !(action is Event) {
                Err(combine_error(arg))
            } else {
                parse_from(args, i + 2, CliCommand::OnClick(args[i + 1]))
            }
        } else {
            match flag_command(arg) {
                Some(c) => if !(action is Event) {
                    Err(combine_error(arg))
                } else {
                    parse_from(args, i + 1, c)
                },
                None => Err(unknown_argument_error(arg)),
            }
        }
    }
}

pub open spec fn arg_texts(args: Seq<&str>) -> Seq<Seq<char>> {
    args.map_values(|a: &str| a@)
}

/// The command that the arguments choose (no arguments: [`CliCommand::Event`]).
pub open spec fn parsed_command(args: Seq<Seq<char>>) -> Result<CliCommand, Seq<char>> {
    parse_from(args, 0, CliCommand::Event)
}

pub open spec fn result_view(r: Result<CliAction, String>) -> Result<CliCommand, Seq<char>> {
    match r {
        Ok(a) => Ok(a@),
        Err(e) => Err(e@),
    }
}

fn combine_message(arg: &str) -> (res: String)
    ensures
        res@ == combine_error(arg@),
{
    let mut msg = "cannot combine ".to_owned();
    msg.append(arg);
    msg.append(" with another command");
    msg
}

/// Records `next` as the chosen command, unless one was chosen already.
pub fn set_action(action: &mut CliAction, next: CliAction, arg: &str) -> (res: Result<(), String>)
    ensures
        old(action)@ is Event ==> res is Ok && final(action)@ == next@,
        !(old(action)@ is Event) ==> final(action)@ == old(action)@ && (res matches Err(e) && e@
            == combine_error(arg@)),
{
    if !matches!(action, CliAction::Event) {
        return Err(combine_message(arg));
    }
    *action = next;
    Ok(())
}

pub fn parse_cli_args(args: &[&str]) -> (res: Result<CliAction, String>)
    ensures
        result_view(res) == parsed_command(arg_texts(args@)),
{
    let ghost texts = arg_texts(args@);
    let mut action = CliAction::Event;
    let n = args.len();
    let mut i: usize = 0;
    while i < n
        invariant
            n == args@.len(),
            texts == arg_texts(args@),
            i <= n,
            parsed_command(texts) == parse_from(texts, i as int, action@),
        decreases n - i,
    {
        let arg = args[i];
        assert(texts[i as int] == arg@);
        if same_text(arg, "--on-click") {
            if i + 1 >= n {
                return Err("--on-click requires a pane id".to_owned());
            }
            let pane = args[i + 1];
            assert(texts[i + 1] == pane@);
            if pane.unicode_len() == 0 {
                return Err("--on-click requires a pane id".to_owned());
            }
            let r = set_action(&mut action, CliAction::OnClick(pane.to_owned()), arg);
            if r.is_err() {
                return Err(combine_message(arg));
            }
            i = i + 2;
        } else {
            let next = if same_text(arg, "--test") {
                CliAction::Test
            } else if same_text(arg, "--focus-latest") {
                CliAction::FocusLatest
            } else if same_text(arg, "-h") || same_text(arg, "--help") {
                CliAction::Help
            } else if same_text(arg, "-V") || same_text(arg, "--version") {
                CliAction::Version
            } else {
                let mut msg = "unknown argument: ".to_owned();
                msg.append(arg);
                msg.append("; run with --help for usage");
                return Err(msg);
            };
            let r = set_action(&mut action, next, arg);
            if r.is_err() {
                return Err(combine_message(arg));
            }
            i = i + 1;
        }
    }
    Ok(action)
}

} // verus!
verus! {

/// The usage text after the first line.
pub open spec fn usage_body() -> Seq<char> {
    "\n\nUsage:\n  herdr-focus-notify\n  herdr-focus-notify --test\n  herdr-focus-notify --focus-latest\n  herdr-focus-notify --on-click <pane-id>\n\nOptions:\n  --test          Send a test focus notification\n  --focus-latest  Focus the most recent active notification pane\n  --on-click      Dismiss the clicked pane's notification and replay others\n  -h, --help      Show this help\n  -V, --version\n                 Show the version"@
}

/// `herdr-focus-notify <version>`, the answer to `--version`.
pub fn version_text(version: &str) -> (res: String)
    ensures
        res@ == "herdr-focus-notify "@ + version@,
{
    let mut text = "herdr-focus-notify ".to_owned();
    text.append(version);
    text
}

/// The answer to `--help`: the version line, then usage and options.
pub fn usage_text(version: &str) -> (res: String)
    ensures
        res@ == "herdr-focus-notify "@ + version@ + usage_body(),
{
    let mut text = version_text(version);
    text.append(
        "\n\nUsage:\n  herdr-focus-notify\n  herdr-focus-notify --test\n  herdr-focus-notify --focus-latest\n  herdr-focus-notify --on-click <pane-id>\n\nOptions:\n  --test          Send a test focus notification\n  --focus-latest  Focus the most recent active notification pane\n  --on-click      Dismiss the clicked pane's notification and replay others\n  -h, --help      Show this help\n  -V, --version\n                 Show the version",
    );
    text
}

} // verus!
verus! {

/// With no arguments the plugin handles the herdr event.
pub proof fn law_no_arguments_handle_event()
    ensures
        parsed_command(Seq::<Seq<char>>::empty()) == Ok::<CliCommand, Seq<char>>(CliCommand::Event),
{
}

/// One command per run: when the first two arguments both choose a command,
/// parsing fails and names the second.
pub proof fn law_commands_do_not_combine(args: Seq<Seq<char>>)
    requires
        args.len() >= 2,
        flag_command(args[0]) is Some,
        flag_command(args[1]) is Some,
    ensures
        parsed_command(args) == Err::<CliCommand, Seq<char>>(combine_error(args[1])),
{
    reveal_with_fuel(parse_from, 3);
    reveal_strlit("--on-click");
    reveal_strlit("--test");
    reveal_strlit("--focus-latest");
    reveal_strlit("-h");
    reveal_strlit("--help");
    reveal_strlit("-V");
    reveal_strlit("--version");
    assert(args[0] != "--on-click"@) by {
        if args[0] == "--on-click"@ {
            assert(args[0].len() == 10);
            assert(args[0][2] == 'o');
        }
    }
    assert(args[1] != "--on-click"@) by {
        if args[1] == "--on-click"@ {
            assert(args[1].len() == 10);
            assert(args[1][2] == 'o');
        }
    }
}

/// An unknown first argument is reported as such.
pub proof fn law_unknown_argument_rejected(args: Seq<Seq<char>>)
    requires
        args.len() >= 1,
        args[0] != "--on-click"@,
        flag_command(args[0]) is None,
    ensures
        parsed_command(args) == Err::<CliCommand, Seq<char>>(unknown_argument_error(args[0])),
{
}

proof fn lemma_click_pane_nonempty(args: Seq<Seq<char>>, i: int, action: CliCommand)
    requires
        action matches CliCommand::OnClick(p) ==> p.len() > 0,
    ensures
        parse_from(args, i, action) matches Ok(CliCommand::OnClick(q)) ==> q.len() > 0,
    decreases args.len() - i,
{
    if 0 <= i < args.len() {
        let arg = args[i];
        if arg == "--on-click"@ {
            if i + 1 < args.len() && args[i + 1].len() != 0 && action is Event {
                lemma_click_pane_nonempty(args, i + 2, CliCommand::OnClick(args[i + 1]));
            }
        } else {
            match flag_command(arg) {
                Some(c) => if action is Event {
                    lemma_click_pane_nonempty(args, i + 1, c);
                },
                None => {},
            }
        }
    }
}

/// A clicked pane is never empty.
pub proof fn law_clicked_pane_not_empty(args: Seq<Seq<char>>)
    ensures
        parsed_command(args) matches Ok(CliCommand::OnClick(p)) ==> p.len() > 0,
{
    lemma_click_pane_nonempty(args, 0, CliCommand::Event);
}

} // verus!
