//! The decisions of one plugin run, between the steps that talk to the
//! outside world (herdr, the notifier, the away command, the state file).

use vstd::prelude::*;

use crate::cli::{CliAction, CliCommand};
use crate::event::is_attention_status;
use crate::notification::{group_for_pane, notification_group_for_pane, FocusNotification};
use crate::state::{remove_active_notification, without_pane};
use crate::text::same_text;

verus! {

/// What a run does first, once its command is known.
#[derive(Debug, Clone, PartialEq, Eq)]
pub enum CommandPlan {
    PrintUsage,
    PrintVersion,
    /// The plugin is disabled: do nothing.
    Quit,
    /// Dismiss a pane's notification, replaying the others when asked.
    DismissPane { pane_id: String, replay_remaining: bool },
    FocusLatest,
    SendTestNotification,
    /// Read the herdr event from the environment and act on it.
    HandleEvent,
}

pub enum PlanView {
    PrintUsage,
    PrintVersion,
    Quit,
    DismissPane { pane_id: Seq<char>, replay_remaining: bool },
    FocusLatest,
    SendTestNotification,
    HandleEvent,
}

impl View for CommandPlan {
    type V = PlanView;

    open spec fn view(&self) -> PlanView {
        match self {
            CommandPlan::PrintUsage => PlanView::PrintUsage,
            CommandPlan::PrintVersion => PlanView::PrintVersion,
            CommandPlan::Quit => PlanView::Quit,
            CommandPlan::DismissPane { pane_id, replay_remaining } => PlanView::DismissPane {
                pane_id: pane_id@,
                replay_remaining: *replay_remaining,
            },
            CommandPlan::FocusLatest => PlanView::FocusLatest,
            CommandPlan::SendTestNotification => PlanView::SendTestNotification,
            CommandPlan::HandleEvent => PlanView::HandleEvent,
        }
    }
}

/// Help and version answer even when the plugin is disabled; everything else
/// waits for it to be enabled. A click dismisses the clicked pane and replays
/// the other notifications.
pub open spec fn planned(action: CliCommand, enabled: bool) -> PlanView {
    match action {
        CliCommand::Help => PlanView::PrintUsage,
        CliCommand::Version => PlanView::PrintVersion,
        _ => if !enabled {
            PlanView::Quit
        } else {
            match action {
                CliCommand::OnClick(pane_id) => PlanView::DismissPane {
                    pane_id,
                    replay_remaining: true,
                },
                CliCommand::FocusLatest => PlanView::FocusLatest,
                CliCommand::Test => PlanView::SendTestNotification,
                _ => PlanView::HandleEvent,
            }
        },
    }
}

pub fn command_plan(action: CliAction, enabled: bool) -> (res: CommandPlan)
    ensures
        res@ == planned(action@, enabled),
{
    match action {
        CliAction::Help => CommandPlan::PrintUsage,
        CliAction::Version => CommandPlan::PrintVersion,
        _ => if !enabled {
            CommandPlan::Quit
        } else {
            match action {
                CliAction::OnClick(pane_id) => CommandPlan::DismissPane {
                    pane_id,
                    replay_remaining: true,
                },
                CliAction::FocusLatest => CommandPlan::FocusLatest,
                CliAction::Test => CommandPlan::SendTestNotification,
                _ => CommandPlan::HandleEvent,
            }
        },
    }
}

/// A notification is skipped only when the user is known to be looking at its
/// pane: that pane is focused in herdr and the terminal app is frontmost. When
/// either is unknown, the notification is sent.
pub open spec fn skips_notification(
    target_pane: Seq<char>,
    focused_pane: Option<Seq<char>>,
    terminal_frontmost: Option<bool>,
) -> bool {
    focused_pane == Some(target_pane) && terminal_frontmost == Some(true)
}

pub fn should_skip_notification(
    target_pane: &str,
    focused_pane: Option<&str>,
    terminal_frontmost: Option<bool>,
) -> (res: bool)
    ensures
        res == skips_notification(target_pane@, crate::text::opt_view(focused_pane), terminal_frontmost),
{
    match (focused_pane, terminal_frontmost) {
        (Some(focused), Some(true)) => same_text(focused, target_pane),
        _ => false,
    }
}

/// Statuses whose notifications are delivered and replayed.
pub fn status_is_enabled(status: &str) -> (res: bool)
    ensures
        res == is_attention_status(status@),
{
    same_text(status, "blocked") || same_text(status, "done")
}

/// The away fallback is on unless its mode is `off`.
pub open spec fn away_enabled(mode: Seq<char>) -> bool {
    mode != "off"@
}

pub fn away_mode_enabled(mode: &str) -> (res: bool)
    ensures
        res == away_enabled(mode@),
{
    !same_text(mode, "off")
}

/// The away command to run and the recipients it is told about.
#[derive(Debug, Clone, PartialEq, Eq)]
pub struct AwayCommand {
    pub command: String,
    pub recipients: Vec<String>,
}

pub open spec fn missing_away_command_error() -> Seq<char> {
    "HERDR_FOCUS_NOTIFY_AWAY_COMMAND is required when away mode is enabled"@
}

pub open spec fn missing_away_recipients_error() -> Seq<char> {
    "HERDR_FOCUS_NOTIFY_AWAY_RECIPIENTS is required when away mode is enabled"@
}

/// Whether to deliver through the away command. `Ok(None)`: no, because the
/// mode is `off` or the user is not away. `Ok(Some(..))`: run this command.
/// An error when the user is away but the command or the recipients are not
/// configured.
pub fn try_deliver_away_notification(
    mode: &str,
    user_away: bool,
    command: Option<String>,
    recipients: Vec<String>,
) -> (res: Result<Option<AwayCommand>, String>)
    ensures
        !away_enabled(mode@) || !user_away ==> res == Ok::<Option<AwayCommand>, String>(None),
        away_enabled(mode@) && user_away && command is None ==> (res matches Err(e) && e@
            == missing_away_command_error()),
        away_enabled(mode@) && user_away && command is Some && recipients@.len() == 0 ==> (
        res matches Err(e) && e@ == missing_away_recipients_error()),
        away_enabled(mode@) && user_away && command is Some && recipients@.len() > 0 ==> res
            == Ok::<Option<AwayCommand>, String>(
            Some(AwayCommand { command: command->0, recipients }),
        ),
{
    if !away_mode_enabled(mode) {
        return Ok(None);
    }
    if !user_away {
        return Ok(None);
    }
    let command = match command {
        Some(c) => c,
        None => {
            return Err(
                "HERDR_FOCUS_NOTIFY_AWAY_COMMAND is required when away mode is enabled".to_owned(),
            );
        },
    };
    if recipients.len() == 0 {
        return Err(
            "HERDR_FOCUS_NOTIFY_AWAY_RECIPIENTS is required when away mode is enabled".to_owned(),
        );
    }
    Ok(Some(AwayCommand { command, recipients }))
}

/// After the away step: the desktop notification is still sent unless the away
/// command delivered it and the mode is `replace`.
pub open spec fn sends_desktop_after_away(away_delivered: bool, mode: Seq<char>) -> bool {
    !(away_delivered && mode == "replace"@)
}

pub fn desktop_after_away(away_delivered: bool, mode: &str) -> (res: bool)
    ensures
        res == sends_desktop_after_away(away_delivered, mode@),
{
    !(away_delivered && same_text(mode, "replace"))
}

/// Dismisses a pane: its entries leave the active list, and the returned group
/// is the notification group to remove from the screen.
pub fn dismiss_notification(notifications: &mut Vec<FocusNotification>, pane_id: &str) -> (group:
    String)
    ensures
        final(notifications)@ == without_pane(old(notifications)@, pane_id@),
        group@ == group_for_pane(pane_id@),
{
    remove_active_notification(notifications, pane_id);
    notification_group_for_pane(pane_id)
}

} // verus!
verus! {

/// Takes the newest active notification, as a click on it would: it is
/// returned, and its pane's entries leave the list.
pub fn focus_latest_active_notification(notifications: &mut Vec<FocusNotification>) -> (res:
    Option<FocusNotification>)
    ensures
        match res {
            None => old(notifications)@.len() == 0 && final(notifications)@ == old(notifications)@,
            Some(n) => old(notifications)@.len() > 0 && n == old(notifications)@.last()
                && final(notifications)@ == without_pane(old(notifications)@, n.pane_id@),
        },
{
    let ghost start = notifications@;
    match notifications.pop() {
        None => None,
        Some(n) => {
            assert(start.drop_last() =~= notifications@);
            remove_active_notification(notifications, n.pane_id.as_str());
            Some(n)
        },
    }
}

/// Focusing the newest notification leaves the list that a click on it leaves.
pub proof fn law_focus_latest_is_click_on_newest(list: Seq<FocusNotification>)
    requires
        list.len() > 0,
    ensures
        without_pane(list.drop_last(), list.last().pane_id@) == without_pane(
            list,
            list.last().pane_id@,
        ),
{
}

/// With `replace` a delivered away notification stands in for the desktop one;
/// with any other mode, or when nothing went out through the away command, the
/// desktop notification is sent.
pub proof fn law_replace_alone_skips_desktop(mode: Seq<char>)
    ensures
        !sends_desktop_after_away(true, "replace"@),
        mode != "replace"@ ==> sends_desktop_after_away(true, mode),
        sends_desktop_after_away(false, mode),
{
}

} // verus!
verus! {

/// The entries whose status is delivered (blocked or done), order kept.
pub open spec fn replayable(list: Seq<FocusNotification>) -> Seq<FocusNotification>
    decreases list.len(),
{
    if list.len() == 0 {
        list
    } else {
        let rest = replayable(list.drop_last());
        if is_attention_status(list.last().status@) {
            rest.push(list.last())
        } else {
            rest
        }
    }
}

/// The remaining notifications that are shown again after a dismissal.
pub fn notifications_to_replay(notifications: Vec<FocusNotification>) -> (res: Vec<
    FocusNotification,
>)
    ensures
        res@ == replayable(notifications@),
{
    let ghost start = notifications@;
    let mut rest = notifications;
    let mut out: Vec<FocusNotification> = Vec::new();
    let ghost mut k: int = 0;
    assert(start.take(0) =~= Seq::<FocusNotification>::empty());
    assert(start.skip(0) =~= start);
    while rest.len() > 0
        invariant
            0 <= k <= start.len(),
            out@ == replayable(start.take(k)),
            rest@ == start.skip(k),
        decreases rest@.len(),
    {
        let n = rest.remove(0);
        assert(n == start[k]);
        assert(start.take(k + 1).drop_last() =~= start.take(k));
        assert(start.take(k + 1).last() == start[k]);
        assert(rest@ =~= start.skip(k + 1));
        if status_is_enabled(n.status.as_str()) {
            out.push(n);
        }
        proof {
            k = k + 1;
        }
    }
    assert(k == start.len());
    assert(start.take(k) =~= start);
    out
}

/// One agent as `herdr agent list` reports it.
#[derive(Debug, Clone, PartialEq, Eq)]
pub struct AgentEntry {
    pub pane_id: Option<String>,
    pub focused: bool,
}

/// The pane of the first focused agent that names its pane.
pub open spec fn focused_pane_of(agents: Seq<AgentEntry>) -> Option<Seq<char>>
    decreases agents.len(),
{
    if agents.len() == 0 {
        None
    } else if agents[0].focused && agents[0].pane_id is Some {
        Some(agents[0].pane_id->0@)
    } else {
        focused_pane_of(agents.drop_first())
    }
}

pub fn focused_pane(agents: &[AgentEntry]) -> (res: Option<String>)
    ensures
        crate::text::opt_view(res) == focused_pane_of(agents@),
{
    let n = agents.len();
    let mut i: usize = 0;
    assert(agents@.subrange(0, n as int) =~= agents@);
    while i < n
        invariant
            n == agents@.len(),
            i <= n,
            focused_pane_of(agents@) == focused_pane_of(agents@.subrange(i as int, n as int)),
        decreases n - i,
    {
        assert(agents@.subrange(i as int, n as int)[0] == agents@[i as int]);
        if agents[i].focused {
            if let Some(p) = &agents[i].pane_id {
                return Some(p.clone());
            }
        }
        assert(agents@.subrange(i as int, n as int).drop_first() =~= agents@.subrange(i + 1, n as int));
        i = i + 1;
    }
    None
}

} // verus!
verus! {

/// The steps after the away decision, in the order a run takes them.
#[derive(Debug, Clone, Copy, PartialEq, Eq)]
pub struct DeliverySteps {
    /// Record the notification as active right after the away delivery.
    pub save_after_away: bool,
    /// Send the desktop notification.
    pub send_desktop: bool,
    /// Record the notification as active after the desktop notification.
    pub save_after_desktop: bool,
}

/// Only notifications of a herdr event are recorded as active (a test
/// notification is not): once when the away command delivered it, and once
/// more when the desktop notification goes out as well. The desktop
/// notification is left out only after an away delivery in `replace` mode.
pub open spec fn delivery_steps_for(is_event: bool, away_delivered: bool, mode: Seq<char>) -> DeliverySteps {
    DeliverySteps {
        save_after_away: away_delivered && is_event,
        send_desktop: sends_desktop_after_away(away_delivered, mode),
        save_after_desktop: sends_desktop_after_away(away_delivered, mode) && is_event,
    }
}

pub fn delivery_steps(is_event: bool, away_delivered: bool, mode: &str) -> (res: DeliverySteps)
    ensures
        res == delivery_steps_for(is_event, away_delivered, mode@),
{
    let send_desktop = desktop_after_away(away_delivered, mode);
    DeliverySteps {
        save_after_away: away_delivered && is_event,
        send_desktop,
        save_after_desktop: send_desktop && is_event,
    }
}

} // verus!
verus! {

/// A paused plugin does nothing but answer `--help` and `--version`: every
/// other command plans [`PlanView::Quit`], and only then.
pub proof fn law_disabled_plugin_only_answers_help_and_version(action: CliCommand)
    ensures
        !(action is Help) && !(action is Version) ==> planned(action, false) is Quit,
        (action is Help) ==> planned(action, false) is PrintUsage && planned(action, true) is PrintUsage,
        (action is Version) ==> planned(action, false) is PrintVersion && planned(action, true)
            is PrintVersion,
        !(planned(action, true) is Quit),
{
}

/// The replayed notifications are exactly the remaining ones whose status is
/// blocked or done, in their order: every such entry, the newest included.
pub proof fn law_replay_keeps_every_delivered_status(list: Seq<FocusNotification>)
    ensures
        replayable(list) == list.filter(|n: FocusNotification| is_attention_status(n.status@)),
        forall|i: int|
            0 <= i < list.len() && is_attention_status(list[i].status@) ==> #[trigger] replayable(
                list,
            ).contains(list[i]),
        forall|i: int|
            0 <= i < replayable(list).len() ==> is_attention_status(
                #[trigger] replayable(list)[i].status@,
            ),
    decreases list.len(),
{
    let pred = |n: FocusNotification| is_attention_status(n.status@);
    reveal(Seq::filter);
    if list.len() > 0 {
        law_replay_keeps_every_delivered_status(list.drop_last());
    }
    assert(replayable(list) == list.filter(pred));
    broadcast use vstd::seq_lib::group_filter_ensures;
    assert forall|i: int|
        0 <= i < list.len() && is_attention_status(list[i].status@) implies #[trigger] replayable(
        list,
    ).contains(list[i]) by {
        assert(pred(list[i]));
        list.lemma_filter_contains(pred, i);
    }
    assert forall|i: int| 0 <= i < replayable(list).len() implies is_attention_status(
        #[trigger] replayable(list)[i].status@,
    ) by {
        list.lemma_filter_pred(pred, i);
    }
}

} // verus!
