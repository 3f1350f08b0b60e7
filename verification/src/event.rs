//! Turning herdr plugin events into notification actions.

use vstd::prelude::*;

use crate::icons::{agent_icon_path, icon_for_names};
use crate::notification::{
    group_for_pane, notification_group_for_pane, FocusNotification, NotificationView,
};
use crate::text::{
    ascii_lower, opt_view, same_text, to_ascii_lowercase, trim, trimmed, truncated, truncate,
};

verus! {

/// The `data` object of a herdr plugin event, as far as the plugin reads it.
#[derive(Debug, Clone, PartialEq, Eq, Default)]
pub struct EventData {
    pub event_type: Option<String>,
    pub pane_id: Option<String>,
    pub agent_status: Option<String>,
    pub agent: Option<String>,
    pub display_agent: Option<String>,
    pub title: Option<String>,
    pub custom_status: Option<String>,
    pub workspace_id: Option<String>,
}

/// A herdr plugin event: its name and its data.
#[derive(Debug, Clone, PartialEq, Eq, Default)]
pub struct PluginEvent {
    pub event: Option<String>,
    pub data: Option<EventData>,
}

/// What the plugin does in answer to an event.
#[derive(Debug, Clone, PartialEq, Eq)]
pub enum PluginEventAction {
    Notify(FocusNotification),
    DismissPane { pane_id: String, replay_remaining: bool },
}

pub struct EventDataView {
    pub event_type: Option<Seq<char>>,
    pub pane_id: Option<Seq<char>>,
    pub agent_status: Option<Seq<char>>,
    pub agent: Option<Seq<char>>,
    pub display_agent: Option<Seq<char>>,
    pub title: Option<Seq<char>>,
    pub custom_status: Option<Seq<char>>,
    pub workspace_id: Option<Seq<char>>,
}

pub struct PluginEventView {
    pub event: Option<Seq<char>>,
    pub data: Option<EventDataView>,
}

pub enum EventActionView {
    Notify(NotificationView),
    DismissPane { pane_id: Seq<char>, replay_remaining: bool },
}

impl View for EventData {
    type V = EventDataView;

    open spec fn view(&self) -> EventDataView {
        EventDataView {
            event_type: opt_view(self.event_type),
            pane_id: opt_view(self.pane_id),
            agent_status: opt_view(self.agent_status),
            agent: opt_view(self.agent),
            display_agent: opt_view(self.display_agent),
            title: opt_view(self.title),
            custom_status: opt_view(self.custom_status),
            workspace_id: opt_view(self.workspace_id),
        }
    }
}

impl View for PluginEvent {
    type V = PluginEventView;

    open spec fn view(&self) -> PluginEventView {
        PluginEventView {
            event: opt_view(self.event),
            data: match self.data {
                Some(d) => Some(d@),
                None => None,
            },
        }
    }
}

impl View for PluginEventAction {
    type V = EventActionView;

    open spec fn view(&self) -> EventActionView {
        match self {
            PluginEventAction::Notify(n) => EventActionView::Notify(n@),
            PluginEventAction::DismissPane { pane_id, replay_remaining } => {
                EventActionView::DismissPane { pane_id: pane_id@, replay_remaining: *replay_remaining }
            },
        }
    }
}

pub open spec fn opt_action_view(a: Option<PluginEventAction>) -> Option<EventActionView> {
    match a {
        Some(x) => Some(x@),
        None => None,
    }
}

/// The trimmed text of a value that is present and not blank.
pub open spec fn nonempty_trimmed(o: Option<Seq<char>>) -> Option<Seq<char>> {
    match o {
        Some(v) => if trimmed(v).len() > 0 {
            Some(trimmed(v))
        } else {
            None
        },
        None => None,
    }
}

/// The first value that is present and not blank, trimmed.
pub open spec fn first_non_empty_text(vals: Seq<Option<Seq<char>>>) -> Option<Seq<char>>
    decreases vals.len(),
{
    if vals.len() == 0 {
        None
    } else if nonempty_trimmed(vals[0]) is Some {
        nonempty_trimmed(vals[0])
    } else {
        first_non_empty_text(vals.drop_first())
    }
}

pub open spec fn opt_texts(values: Seq<Option<&str>>) -> Seq<Option<Seq<char>>> {
    values.map_values(|o: Option<&str>| opt_view(o))
}

/// The borrowed text of an optional string.
pub fn opt_as_str(o: &Option<String>) -> (res: Option<&str>)
    ensures
        opt_view(res) == opt_view(*o),
{
    match o {
        Some(s) => Some(s.as_str()),
        None => None,
    }
}

pub fn non_empty_trimmed(o: Option<&str>) -> (res: Option<String>)
    ensures
        opt_view(res) == nonempty_trimmed(opt_view(o)),
{
    match o {
        Some(v) => {
            let t = trim(v);
            if t.as_str().unicode_len() > 0 {
                Some(t)
            } else {
                None
            }
        },
        None => None,
    }
}

/// The first of `values` that is present and not blank, trimmed.
pub fn first_non_empty(values: &[Option<&str>]) -> (res: Option<String>)
    ensures
        opt_view(res) == first_non_empty_text(opt_texts(values@)),
{
    let ghost all = opt_texts(values@);
    let n = values.len();
    let mut i: usize = 0;
    assert(all.subrange(0, n as int) =~= all);
    while i < n
        invariant
            n == values@.len(),
            all == opt_texts(values@),
            i <= n,
            first_non_empty_text(all) == first_non_empty_text(all.subrange(i as int, n as int)),
        decreases n - i,
    {
        let r = non_empty_trimmed(values[i]);
        assert(all.subrange(i as int, n as int)[0] == all[i as int]);
        if r.is_some() {
            return r;
        }
        assert(all.subrange(i as int, n as int).drop_first() =~= all.subrange(i + 1, n as int));
        i = i + 1;
    }
    None
}

/// The event name: the first non-blank of the event's own name and the data's type.
pub open spec fn event_name_text(event: Option<Seq<char>>, data_type: Option<Seq<char>>) -> Option<
    Seq<char>,
> {
    first_non_empty_text(seq![event, data_type])
}

pub fn event_name(event: Option<&str>, data_type: Option<&str>) -> (res: Option<String>)
    ensures
        opt_view(res) == event_name_text(opt_view(event), opt_view(data_type)),
{
    let values = [event, data_type];
    let r = first_non_empty(&values);
    assert(opt_texts(values@) =~= seq![opt_view(event), opt_view(data_type)]);
    r
}

/// The (trimmed) event name is one of two spellings.
pub open spec fn event_name_matches(name: Option<Seq<char>>, dotted: Seq<char>, snake: Seq<char>) -> bool {
    match name {
        Some(n) => trimmed(n) == dotted || trimmed(n) == snake,
        None => false,
    }
}

pub fn event_matches(event_name: Option<&str>, dotted: &str, snake: &str) -> (res: bool)
    ensures
        res == event_name_matches(opt_view(event_name), dotted@, snake@),
{
    match event_name {
        Some(name) => {
            let t = trim(name);
            same_text(t.as_str(), dotted) || same_text(t.as_str(), snake)
        },
        None => false,
    }
}

pub fn pane_id_from_data(data: &EventData) -> (res: Option<String>)
    ensures
        opt_view(res) == nonempty_trimmed(data@.pane_id),
{
    non_empty_trimmed(opt_as_str(&data.pane_id))
}

} // verus!
verus! {

/// The longest summary line, in characters.
pub const SUMMARY_MAX_CHARS: usize = 180;

/// The first line of a notification body: the pane's title cut to
/// [`SUMMARY_MAX_CHARS`], or a fixed hint when the title is blank.
pub open spec fn summary_text(d: EventDataView) -> Seq<char> {
    match nonempty_trimmed(d.title) {
        Some(t) => truncated(t, SUMMARY_MAX_CHARS as nat),
        None => "Click to focus this Herdr agent pane."@,
    }
}

/// The second line of a notification body: the pane id, the workspace id when
/// there is one, and the custom status or else the agent status, joined by ` | `.
pub open spec fn details_text(d: EventDataView, pane_id: Seq<char>, status: Seq<char>) -> Seq<char> {
    let workspace = match nonempty_trimmed(d.workspace_id) {
        Some(w) => " | workspace "@ + w,
        None => Seq::<char>::empty(),
    };
    let shown_status = match nonempty_trimmed(d.custom_status) {
        Some(c) => c,
        None => status,
    };
    "pane "@ + pane_id + workspace + " | status "@ + shown_status
}

pub open spec fn body_text(d: EventDataView, pane_id: Seq<char>, status: Seq<char>) -> Seq<char> {
    summary_text(d) + "\n"@ + details_text(d, pane_id, status)
}

pub fn notification_body(data: &EventData, pane_id: &str, status: &str) -> (res: String)
    ensures
        res@ == body_text(data@, pane_id@, status@),
{
    let mut body = match non_empty_trimmed(opt_as_str(&data.title)) {
        Some(t) => truncate(t.as_str(), SUMMARY_MAX_CHARS),
        None => "Click to focus this Herdr agent pane.".to_owned(),
    };
    body.append("\n");
    body.append("pane ");
    body.append(pane_id);
    if let Some(w) = non_empty_trimmed(opt_as_str(&data.workspace_id)) {
        body.append(" | workspace ");
        body.append(w.as_str());
    }
    body.append(" | status ");
    match non_empty_trimmed(opt_as_str(&data.custom_status)) {
        Some(c) => body.append(c.as_str()),
        None => body.append(status),
    }
    assert(body@ =~= body_text(data@, pane_id@, status@));
    body
}

/// The agent as the notification names it.
pub open spec fn agent_label(d: EventDataView) -> Seq<char> {
    match first_non_empty_text(seq![d.display_agent, d.agent]) {
        Some(a) => a,
        None => "Agent"@,
    }
}

/// `<agent> needs attention` for a blocked agent, `<agent> finished` otherwise,
/// followed by `: <custom status>` when there is one.
pub open spec fn title_text(d: EventDataView, status: Seq<char>) -> Seq<char> {
    let base = if status == "blocked"@ {
        agent_label(d) + " needs attention"@
    } else {
        agent_label(d) + " finished"@
    };
    match nonempty_trimmed(d.custom_status) {
        Some(c) => base + ": "@ + c,
        None => base,
    }
}

/// The agent status, trimmed and in ASCII lower case (blank when absent).
pub open spec fn status_text(d: EventDataView) -> Seq<char> {
    match d.agent_status {
        Some(s) => ascii_lower(trimmed(s)),
        None => ascii_lower(trimmed(Seq::<char>::empty())),
    }
}

/// The statuses that raise a notification.
pub open spec fn is_attention_status(status: Seq<char>) -> bool {
    status == "blocked"@ || status == "done"@
}

/// An agent status change: no action without a pane id; a notification for a
/// blocked or finished agent; for any other status, the pane's notification is
/// dismissed (without replaying the others).
pub open spec fn status_change_action(d: EventDataView) -> Option<EventActionView> {
    let status = status_text(d);
    match nonempty_trimmed(d.pane_id) {
        None => None,
        Some(pane_id) => if !is_attention_status(status) {
            Some(EventActionView::DismissPane { pane_id, replay_remaining: false })
        } else {
            Some(
                EventActionView::Notify(
                    NotificationView {
                        pane_id,
                        status,
                        title: title_text(d, status),
                        body: body_text(d, pane_id, status),
                        group: group_for_pane(pane_id),
                        app_icon: icon_for_names(seq![d.display_agent, d.agent]),
                    },
                ),
            )
        },
    }
}

pub fn event_action_from_agent_status_changed(data: EventData) -> (res: Option<PluginEventAction>)
    ensures
        opt_action_view(res) == status_change_action(data@),
{
    let status = match opt_as_str(&data.agent_status) {
        Some(s) => to_ascii_lowercase(trim(s).as_str()),
        None => to_ascii_lowercase(trim("").as_str()),
    };
    proof {
        if data.agent_status is None {
            assert(""@ =~= Seq::<char>::empty()) by {
                reveal_strlit("");
            }
        }
    }
    let pane_id = match pane_id_from_data(&data) {
        Some(p) => p,
        None => return None,
    };
    if !same_text(status.as_str(), "blocked") && !same_text(status.as_str(), "done") {
        return Some(PluginEventAction::DismissPane { pane_id, replay_remaining: false });
    }
    let names = [opt_as_str(&data.display_agent), opt_as_str(&data.agent)];
    assert(opt_texts(names@) =~= seq![data@.display_agent, data@.agent]);
    let mut title = match first_non_empty(&names) {
        Some(a) => a,
        None => "Agent".to_owned(),
    };
    let app_icon = agent_icon_path(&names);
    if same_text(status.as_str(), "blocked") {
        title.append(" needs attention");
    } else {
        title.append(" finished");
    }
    let custom = [opt_as_str(&data.custom_status)];
    assert(opt_texts(custom@) =~= seq![data@.custom_status]);
    proof {
        reveal_with_fuel(first_non_empty_text, 2);
    }
    if let Some(c) = first_non_empty(&custom) {
        title.append(": ");
        title.append(c.as_str());
    }
    let body = notification_body(&data, pane_id.as_str(), status.as_str());
    let group = notification_group_for_pane(pane_id.as_str());
    let n = FocusNotification { pane_id, status, title, body, group, app_icon };
    proof {
        reveal_with_fuel(first_non_empty_text, 2);
    }
    assert(n@.title =~= title_text(data@, status@));
    Some(PluginEventAction::Notify(n))
}

} // verus!
verus! {

/// What an event asks for. An event without data asks for nothing. A pane
/// focus event (`pane.focused` / `pane_focused`) dismisses that pane's
/// notification and replays the others. An agent status change
/// (`pane.agent_status_changed` / `pane_agent_status_changed`), or an event with
/// no name at all, is handled by [`status_change_action`]. Any other event asks
/// for nothing.
pub open spec fn event_action(e: PluginEventView) -> Option<EventActionView> {
    match e.data {
        None => None,
        Some(d) => {
            let name = event_name_text(e.event, d.event_type);
            if event_name_matches(name, "pane.focused"@, "pane_focused"@) {
                match nonempty_trimmed(d.pane_id) {
                    Some(pane_id) => Some(EventActionView::DismissPane { pane_id, replay_remaining: true }),
                    None => None,
                }
            } else if name is Some && !event_name_matches(
                name,
                "pane.agent_status_changed"@,
                "pane_agent_status_changed"@,
            ) {
                None
            } else {
                status_change_action(d)
            }
        },
    }
}

pub fn event_action_from_event(event: PluginEvent) -> (res: Option<PluginEventAction>)
    ensures
        opt_action_view(res) == event_action(event@),
{
    let PluginEvent { event: name, data } = event;
    let data = match data {
        Some(d) => d,
        None => return None,
    };
    let event_name = event_name(opt_as_str(&name), opt_as_str(&data.event_type));
    let name_ref = opt_as_str(&event_name);
    if event_matches(name_ref, "pane.focused", "pane_focused") {
        return match pane_id_from_data(&data) {
            Some(pane_id) => Some(PluginEventAction::DismissPane { pane_id, replay_remaining: true }),
            None => None,
        };
    }
    if name_ref.is_some() && !event_matches(
        name_ref,
        "pane.agent_status_changed",
        "pane_agent_status_changed",
    ) {
        return None;
    }
    event_action_from_agent_status_changed(data)
}

/// The notification that an event asks for, if it asks for one.
pub open spec fn event_notification(e: PluginEventView) -> Option<NotificationView> {
    match event_action(e) {
        Some(EventActionView::Notify(n)) => Some(n),
        _ => None,
    }
}

pub fn notification_from_event(event: PluginEvent) -> (res: Option<FocusNotification>)
    ensures
        opt_view(res) == event_notification(event@),
{
    match event_action_from_event(event) {
        Some(PluginEventAction::Notify(notification)) => Some(notification),
        Some(PluginEventAction::DismissPane { .. }) | None => None,
    }
}

} // verus!
verus! {

/// A notification is raised only for a blocked or finished agent of a known
/// pane, and it carries that pane's group.
pub proof fn law_notify_only_for_attention(e: PluginEventView)
    ensures
        event_action(e) matches Some(EventActionView::Notify(n)) ==> is_attention_status(n.status)
            && n.pane_id.len() > 0 && n.group == group_for_pane(n.pane_id),
{
}

/// An event without a usable pane id asks for nothing.
pub proof fn law_no_pane_no_action(e: PluginEventView)
    requires
        e.data is Some,
        nonempty_trimmed(e.data->0.pane_id) is None,
    ensures
        event_action(e) is None,
{
}

/// Focusing a pane in herdr dismisses that pane's notification and replays
/// the others.
pub proof fn law_focus_event_dismisses_pane(e: PluginEventView, pane_id: Seq<char>)
    requires
        e.data is Some,
        event_name_matches(
            event_name_text(e.event, e.data->0.event_type),
            "pane.focused"@,
            "pane_focused"@,
        ),
        nonempty_trimmed(e.data->0.pane_id) == Some(pane_id),
    ensures
        event_action(e) == Some(EventActionView::DismissPane { pane_id, replay_remaining: true }),
{
}

/// Any status other than blocked or done clears the pane's stale notification.
pub proof fn law_other_status_clears_pane(d: EventDataView, pane_id: Seq<char>)
    requires
        nonempty_trimmed(d.pane_id) == Some(pane_id),
        !is_attention_status(status_text(d)),
    ensures
        status_change_action(d) == Some(
            EventActionView::DismissPane { pane_id, replay_remaining: false },
        ),
{
}

/// The body names the pane, the workspace when there is one, and the status.
pub proof fn law_body_names_pane_and_status(d: EventDataView, pane_id: Seq<char>, status: Seq<char>)
    ensures
        crate::text::contains_text(body_text(d, pane_id, status), "pane "@ + pane_id),
        nonempty_trimmed(d.workspace_id) matches Some(w) ==> crate::text::contains_text(
            body_text(d, pane_id, status),
            " | workspace "@ + w,
        ),
        nonempty_trimmed(d.custom_status) is None ==> crate::text::contains_text(
            body_text(d, pane_id, status),
            " | status "@ + status,
        ),
{
    let summary = summary_text(d);
    let body = body_text(d, pane_id, status);
    let workspace = match nonempty_trimmed(d.workspace_id) {
        Some(w) => " | workspace "@ + w,
        None => Seq::<char>::empty(),
    };
    let shown = match nonempty_trimmed(d.custom_status) {
        Some(c) => c,
        None => status,
    };
    let head = summary + "\n"@;
    let p = "pane "@ + pane_id;
    assert(body =~= head + p + workspace + (" | status "@ + shown));
    let i = head.len() as int;
    assert(body.subrange(i, i + p.len()) =~= p);
    assert(crate::text::occurs_at(body, p, i));
    if nonempty_trimmed(d.workspace_id) is Some {
        let k = i + p.len();
        assert(body.subrange(k, k + workspace.len()) =~= workspace);
        assert(crate::text::occurs_at(body, workspace, k));
    }
    let s = " | status "@ + shown;
    let k2 = i + p.len() + workspace.len();
    assert(body.subrange(k2, k2 + s.len()) =~= s);
    assert(crate::text::occurs_at(body, s, k2));
}

} // verus!
verus! {

/// The title of a notification names the agent (its display name, else its
/// name, else `Agent`), says `needs attention` for a blocked agent and
/// `finished` for a done one, and ends with `: <custom status>` whenever the
/// event carries a custom status, blocked or done alike.
pub proof fn law_title_names_agent_state_and_custom_status(d: EventDataView)
    ensures
        status_change_action(d) matches Some(EventActionView::Notify(n)) ==> {
            let agent = match first_non_empty_text(seq![d.display_agent, d.agent]) {
                Some(a) => a,
                None => "Agent"@,
            };
            let state = if n.status == "blocked"@ {
                " needs attention"@
            } else {
                " finished"@
            };
            &&& n.status == "blocked"@ || n.status == "done"@
            &&& match nonempty_trimmed(d.custom_status) {
                Some(c) => n.title == agent + state + ": "@ + c,
                None => n.title == agent + state,
            }
        },
{
}

} // verus!
