//! The text handed to the programs that deliver a notification: the focus
//! script run by the notifier, the arguments of `open`, and the recipient list
//! of the away command.

use vstd::prelude::*;

use crate::config::string_texts;
use crate::notification::{group_for_pane, notification_group_for_pane, FocusNotification};
use crate::text::{chars_of, push_char};

verus! {

/// The `open` arguments that bring the terminal app to the front: a path is
/// opened as it is, a name with `-a`.
pub open spec fn open_args(app: Seq<char>) -> Seq<Seq<char>> {
    if app.contains('/') {
        seq![app]
    } else {
        seq!["-a"@, app]
    }
}

pub fn activate_open_args(app: &str) -> (res: Vec<String>)
    ensures
        string_texts(res@) == open_args(app@),
{
    let v = chars_of(app);
    let mut has_slash = false;
    let mut i: usize = 0;
    while i < v.len()
        invariant
            v@ == app@,
            i <= v@.len(),
            has_slash == (exists|k: int| 0 <= k < i && v@[k] == '/'),
        decreases v.len() - i,
    {
        if v[i] == '/' {
            has_slash = true;
        }
        i = i + 1;
    }
    let mut args: Vec<String> = Vec::new();
    if !has_slash {
        args.push("-a".to_owned());
    }
    args.push(app.to_owned());
    assert(has_slash ==> app@.contains('/'));
    assert(string_texts(args@) =~= open_args(app@));
    args
}

/// Texts joined with `,` between them.
pub open spec fn comma_joined(items: Seq<Seq<char>>) -> Seq<char>
    decreases items.len(),
{
    if items.len() == 0 {
        Seq::<char>::empty()
    } else if items.len() == 1 {
        items[0]
    } else {
        comma_joined(items.drop_last()) + ","@ + items.last()
    }
}

/// The recipients as the away command receives them: joined with `,`.
pub fn recipients_text(recipients: &[String]) -> (res: String)
    ensures
        res@ == comma_joined(string_texts(recipients@)),
{
    let ghost all = string_texts(recipients@);
    let mut out = String::new();
    let mut i: usize = 0;
    while i < recipients.len()
        invariant
            all == string_texts(recipients@),
            i <= recipients@.len(),
            out@ == comma_joined(all.take(i as int)),
        decreases recipients.len() - i,
    {
        assert(all.take(i + 1).drop_last() =~= all.take(i as int));
        assert(all.take(i + 1).last() == recipients@[i as int]@);
        if i > 0 {
            out.append(",");
        } else {
            assert(out@ =~= Seq::<char>::empty());
        }
        out.append(recipients[i].as_str());
        i = i + 1;
    }
    assert(all.take(recipients@.len() as int) =~= all);
    out
}

/// The characters of `s` with each `'` written as `'\''`.
pub open spec fn quote_body(s: Seq<char>) -> Seq<char>
    decreases s.len(),
{
    if s.len() == 0 {
        Seq::<char>::empty()
    } else if s.last() == '\'' {
        quote_body(s.drop_last()) + "'\\''"@
    } else {
        quote_body(s.drop_last()).push(s.last())
    }
}

/// `s` as one single-quoted shell word.
pub open spec fn shell_quoted(s: Seq<char>) -> Seq<char> {
    "'"@ + quote_body(s) + "'"@
}

pub fn shell_quote(s: &str) -> (res: String)
    ensures
        res@ == shell_quoted(s@),
{
    let v = chars_of(s);
    let mut out = "'".to_owned();
    let ghost start = out@;
    let mut i: usize = 0;
    while i < v.len()
        invariant
            v@ == s@,
            i <= v@.len(),
            out@ == start + quote_body(v@.take(i as int)),
        decreases v.len() - i,
    {
        assert(v@.take(i + 1).drop_last() =~= v@.take(i as int));
        assert(v@.take(i + 1).last() == v@[i as int]);
        if v[i] == '\'' {
            out.append("'\\''");
        } else {
            push_char(&mut out, v[i]);
        }
        i = i + 1;
    }
    assert(v@.take(v@.len() as int) =~= v@);
    out.append("'");
    out
}

/// The decimal digits of `n`.
pub open spec fn decimal_text(n: nat) -> Seq<char>
    decreases n,
{
    if n < 10 {
        seq![(('0' as u32) + n) as char]
    } else {
        decimal_text(n / 10).push((('0' as u32) + (n % 10)) as char)
    }
}

pub fn u64_text(n: u64) -> (res: String)
    ensures
        res@ == decimal_text(n as nat),
    decreases n,
{
    if n < 10 {
        let mut out = String::new();
        push_char(&mut out, ((n as u8) + 48) as char);
        out
    } else {
        let mut out = u64_text(n / 10);
        push_char(&mut out, (((n % 10) as u8) + 48) as char);
        out
    }
}

} // verus!
verus! {

/// The notifier command line: title, message, group, timeout and, when there
/// is one, the app icon, each value quoted for the shell.
pub open spec fn notifier_command(
    notifier: Seq<char>,
    title: Seq<char>,
    body: Seq<char>,
    group: Seq<char>,
    timeout: nat,
    app_icon: Option<Seq<char>>,
) -> Seq<char> {
    let icon = match app_icon {
        Some(i) => " --app-icon "@ + shell_quoted(i),
        None => Seq::<char>::empty(),
    };
    shell_quoted(notifier) + " --title "@ + shell_quoted(title) + " --message "@ + shell_quoted(body)
        + " --group "@ + shell_quoted(group) + " --timeout "@ + decimal_text(timeout) + icon
}

/// The line that brings the terminal app to the front, when one is configured.
pub open spec fn activate_line(activate_app: Option<Seq<char>>) -> Seq<char> {
    match activate_app {
        Some(app) => if app.contains('/') {
            "open "@ + shell_quoted(app) + "\n"@
        } else {
            "open -a "@ + shell_quoted(app) + "\n"@
        },
        None => Seq::<char>::empty(),
    }
}

/// The script that shows a notification and, when the user clicks it, brings
/// the terminal to the front, focuses the pane in herdr and tells the plugin
/// about the click. A notification that times out or is closed does nothing.
pub open spec fn focus_script(
    pane_id: Seq<char>,
    title: Seq<char>,
    body: Seq<char>,
    group: Seq<char>,
    app_icon: Option<Seq<char>>,
    herdr_bin: Seq<char>,
    plugin_bin: Seq<char>,
    notifier_bin: Seq<char>,
    timeout: nat,
    activate_app: Option<Seq<char>>,
) -> Seq<char> {
    "#!/bin/sh\nresult=$("@ + notifier_command(notifier_bin, title, body, group, timeout, app_icon)
        + ")\ncase \"$result\" in\n  ''|@TIMEOUT|@CLOSED) exit 0 ;;\nesac\n"@ + activate_line(
        activate_app,
    ) + shell_quoted(herdr_bin) + " agent focus "@ + shell_quoted(pane_id) + "\nexec "@
        + shell_quoted(plugin_bin) + " --on-click "@ + shell_quoted(pane_id) + "\n"@
}

fn contains_slash(s: &str) -> (res: bool)
    ensures
        res == s@.contains('/'),
{
    let v = chars_of(s);
    let mut i: usize = 0;
    while i < v.len()
        invariant
            v@ == s@,
            i <= v@.len(),
            forall|k: int| 0 <= k < i ==> v@[k] != '/',
        decreases v.len() - i,
    {
        if v[i] == '/' {
            assert(s@[i as int] == '/');
            return true;
        }
        i = i + 1;
    }
    false
}

fn notifier_command_text(
    notifier: &str,
    title: &str,
    body: &str,
    group: &str,
    timeout: u64,
    app_icon: &Option<String>,
) -> (res: String)
    ensures
        res@ == notifier_command(
            notifier@,
            title@,
            body@,
            group@,
            timeout as nat,
            crate::text::opt_view(*app_icon),
        ),
{
    let mut s = shell_quote(notifier);
    s.append(" --title ");
    s.append(shell_quote(title).as_str());
    s.append(" --message ");
    s.append(shell_quote(body).as_str());
    s.append(" --group ");
    s.append(shell_quote(group).as_str());
    s.append(" --timeout ");
    s.append(u64_text(timeout).as_str());
    if let Some(icon) = app_icon {
        s.append(" --app-icon ");
        s.append(shell_quote(icon.as_str()).as_str());
    }
    assert(s@ =~= notifier_command(
        notifier@,
        title@,
        body@,
        group@,
        timeout as nat,
        crate::text::opt_view(*app_icon),
    ));
    s
}

fn activate_line_text(activate_app: Option<&str>) -> (res: String)
    ensures
        res@ == activate_line(crate::text::opt_view(activate_app)),
{
    match activate_app {
        Some(app) => {
            let mut s = if contains_slash(app) {
                "open ".to_owned()
            } else {
                "open -a ".to_owned()
            };
            s.append(shell_quote(app).as_str());
            s.append("\n");
            s
        },
        None => String::new(),
    }
}

fn focus_tail_text(herdr_bin: &str, plugin_bin: &str, pane_id: &str) -> (res: String)
    ensures
        res@ == shell_quoted(herdr_bin@) + " agent focus "@ + shell_quoted(pane_id@) + "\nexec "@
            + shell_quoted(plugin_bin@) + " --on-click "@ + shell_quoted(pane_id@) + "\n"@,
{
    let mut s = shell_quote(herdr_bin);
    s.append(" agent focus ");
    s.append(shell_quote(pane_id).as_str());
    s.append("\nexec ");
    s.append(shell_quote(plugin_bin).as_str());
    s.append(" --on-click ");
    s.append(shell_quote(pane_id).as_str());
    s.append("\n");
    s
}

pub fn focus_script_text(
    notification: &FocusNotification,
    herdr_bin: &str,
    plugin_bin: &str,
    notifier_bin: &str,
    timeout: u64,
    activate_app: Option<&str>,
) -> (res: String)
    ensures
        res@ == focus_script(
            notification.pane_id@,
            notification.title@,
            notification.body@,
            notification.group@,
            crate::text::opt_view(notification.app_icon),
            herdr_bin@,
            plugin_bin@,
            notifier_bin@,
            timeout as nat,
            crate::text::opt_view(activate_app),
        ),
{
    let command = notifier_command_text(
        notifier_bin,
        notification.title.as_str(),
        notification.body.as_str(),
        notification.group.as_str(),
        timeout,
        &notification.app_icon,
    );
    let activate = activate_line_text(activate_app);
    let tail = focus_tail_text(herdr_bin, plugin_bin, notification.pane_id.as_str());
    let mut s = "#!/bin/sh\nresult=$(".to_owned();
    s.append(command.as_str());
    s.append(")\ncase \"$result\" in\n  ''|@TIMEOUT|@CLOSED) exit 0 ;;\nesac\n");
    s.append(activate.as_str());
    s.append(tail.as_str());
    assert(s@ =~= focus_script(
        notification.pane_id@,
        notification.title@,
        notification.body@,
        notification.group@,
        crate::text::opt_view(notification.app_icon),
        herdr_bin@,
        plugin_bin@,
        notifier_bin@,
        timeout as nat,
        crate::text::opt_view(activate_app),
    ));
    s
}

/// The notification that `--test` sends, for the given pane.
pub open spec fn test_notification_view(pane_id: Seq<char>) -> crate::notification::NotificationView {
    crate::notification::NotificationView {
        pane_id,
        status: "blocked"@,
        title: "Herdr Focus Notify test"@,
        body: "Click to focus this Herdr agent pane.\npane "@ + pane_id + " | status blocked"@,
        group: group_for_pane(pane_id),
        app_icon: None,
    }
}

pub fn test_notification(pane_id: &str) -> (res: FocusNotification)
    ensures
        res@ == test_notification_view(pane_id@),
{
    let mut body = "Click to focus this Herdr agent pane.\npane ".to_owned();
    body.append(pane_id);
    body.append(" | status blocked");
    FocusNotification {
        pane_id: pane_id.to_owned(),
        status: "blocked".to_owned(),
        title: "Herdr Focus Notify test".to_owned(),
        body,
        group: notification_group_for_pane(pane_id),
        app_icon: None,
    }
}

} // verus!
