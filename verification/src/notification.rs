//! The notification record and its group identifier.

use vstd::prelude::*;

use crate::text::{opt_view, push_char};

verus! {

/// A desktop notification that focuses one herdr pane when clicked.
#[derive(Debug, Clone, PartialEq, Eq)]
pub struct FocusNotification {
    pub pane_id: String,
    pub status: String,
    pub title: String,
    pub body: String,
    pub group: String,
    pub app_icon: Option<String>,
}

/// The text content of a [`FocusNotification`].
pub struct NotificationView {
    pub pane_id: Seq<char>,
    pub status: Seq<char>,
    pub title: Seq<char>,
    pub body: Seq<char>,
    pub group: Seq<char>,
    pub app_icon: Option<Seq<char>>,
}

impl View for FocusNotification {
    type V = NotificationView;

    open spec fn view(&self) -> NotificationView {
        NotificationView {
            pane_id: self.pane_id@,
            status: self.status@,
            title: self.title@,
            body: self.body@,
            group: self.group@,
            app_icon: opt_view(self.app_icon),
        }
    }
}

/// Characters that a notification group identifier keeps as they are.
pub open spec fn is_group_id_char(c: char) -> bool {
    ||| 'a' <= c <= 'z'
    ||| 'A' <= c <= 'Z'
    ||| '0' <= c <= '9'
    ||| c == '-'
    ||| c == '_'
}

/// Any other character becomes `-`.
pub open spec fn group_id_char(c: char) -> char {
    if is_group_id_char(c) {
        c
    } else {
        '-'
    }
}

pub open spec fn sanitized_group_id(s: Seq<char>) -> Seq<char> {
    s.map_values(|c: char| group_id_char(c))
}

/// The notification group of a pane: `herdr-` and the pane id with every
/// character outside `[A-Za-z0-9_-]` replaced by `-`.
pub open spec fn group_for_pane(pane_id: Seq<char>) -> Seq<char> {
    "herdr-"@ + sanitized_group_id(pane_id)
}

pub fn sanitize_group_id(pane_id: &str) -> (res: String)
    ensures
        res@ == sanitized_group_id(pane_id@),
{
    let v = crate::text::chars_of(pane_id);
    let mut out = String::new();
    let mut i: usize = 0;
    while i < v.len()
        invariant
            v@ == pane_id@,
            i <= v@.len(),
            out@ == sanitized_group_id(v@.subrange(0, i as int)),
        decreases v.len() - i,
    {
        let c = v[i];
        let keep = ('a' <= c && c <= 'z') || ('A' <= c && c <= 'Z') || ('0' <= c && c <= '9') || c
            == '-' || c == '_';
        push_char(&mut out, if keep { c } else { '-' });
        assert(sanitized_group_id(v@.subrange(0, i + 1)) =~= sanitized_group_id(
            v@.subrange(0, i as int),
        ).push(group_id_char(c)));
        i = i + 1;
    }
    assert(v@.subrange(0, v@.len() as int) =~= v@);
    out
}

pub fn notification_group_for_pane(pane_id: &str) -> (res: String)
    ensures
        res@ == group_for_pane(pane_id@),
{
    let mut group = "herdr-".to_owned();
    group.append(sanitize_group_id(pane_id).as_str());
    group
}

} // verus!
verus! {

/// A group id is `herdr-` and one clean character for each character of the
/// pane id; a clean pane id is kept as it is.
pub proof fn law_group_is_clean(pane_id: Seq<char>)
    ensures
        group_for_pane(pane_id).len() == pane_id.len() + 6,
        forall|i: int| 0 <= i < group_for_pane(pane_id).len() ==> is_group_id_char(
            #[trigger] group_for_pane(pane_id)[i],
        ),
        (forall|i: int| 0 <= i < pane_id.len() ==> is_group_id_char(#[trigger] pane_id[i]))
            ==> sanitized_group_id(pane_id) == pane_id,
{
    reveal_strlit("herdr-");
    let g = group_for_pane(pane_id);
    assert forall|i: int| 0 <= i < g.len() implies is_group_id_char(#[trigger] g[i]) by {
        if i >= 6 {
            assert(g[i] == group_id_char(pane_id[i - 6]));
        }
    }
    if forall|i: int| 0 <= i < pane_id.len() ==> is_group_id_char(#[trigger] pane_id[i]) {
        assert(sanitized_group_id(pane_id) =~= pane_id);
    }
}

} // verus!
