//! Reading the plugin's settings: `.env` lines and the meaning of each value.
//!
//! A `.env` line is `KEY=value`, optionally preceded by `export `. Blank lines
//! and lines starting with `#` are skipped. A value that starts with a single
//! or a double quote runs to the next such quote; any other value ends before
//! a `#` that starts it or follows white space (an inline comment).

use vstd::prelude::*;

use crate::text::{
    ascii_lower, chars_of, is_white_space, is_white_space_char, same_text, string_from_chars,
    to_ascii_lowercase, trim, trim_end, trim_start, trimmed,
};

verus! {

/// The first index at or after `from` holding `c`, or `s.len()` when none does.
pub open spec fn find_char(s: Seq<char>, c: char, from: int) -> int
    decreases s.len() - from,
{
    if from < 0 || from >= s.len() {
        s.len() as int
    } else if s[from] == c {
        from
    } else {
        find_char(s, c, from + 1)
    }
}

/// The first index at or after `from` where an inline comment starts: a `#`
/// at the start or after white space; `s.len()` when there is none.
pub open spec fn find_comment(s: Seq<char>, from: int) -> int
    decreases s.len() - from,
{
    if from < 0 || from >= s.len() {
        s.len() as int
    } else if s[from] == '#' && (from == 0 || is_white_space(s[from - 1])) {
        from
    } else {
        find_comment(s, from + 1)
    }
}

/// A line without its `export` keyword.
pub open spec fn strip_export(s: Seq<char>) -> Seq<char> {
    if s.len() > 6 && s.take(6) == "export"@ && is_white_space(s[6]) {
        trim_start(s.skip(7))
    } else {
        s
    }
}

/// The value of an assignment, from the trimmed text after `=`.
pub open spec fn env_value_text(raw: Seq<char>) -> Seq<char> {
    if raw.len() > 0 && (raw[0] == '\'' || raw[0] == '"') && find_char(raw, raw[0], 1) < raw.len() {
        raw.subrange(1, find_char(raw, raw[0], 1))
    } else {
        trim_end(raw.take(find_comment(raw, 0)))
    }
}

/// The key and value that a `.env` line assigns, if it assigns one.
pub open spec fn env_assignment(line: Seq<char>) -> Option<(Seq<char>, Seq<char>)> {
    let t = strip_export(trimmed(line));
    if t.len() == 0 || t[0] == '#' {
        None
    } else {
        let eq = find_char(t, '=', 0);
        if eq >= t.len() {
            None
        } else {
            let key = trimmed(t.take(eq));
            if key.len() == 0 {
                None
            } else {
                Some((key, env_value_text(trimmed(t.skip(eq + 1)))))
            }
        }
    }
}

pub fn find_char_from(v: &Vec<char>, c: char, from: usize) -> (res: usize)
    ensures
        res == find_char(v@, c, from as int),
        res <= v@.len(),
        from <= v@.len() ==> from <= res,
{
    if from >= v.len() {
        return v.len();
    }
    let mut i = from;
    while i < v.len()
        invariant
            find_char(v@, c, from as int) == find_char(v@, c, i as int),
            from <= i <= v@.len(),
        decreases v.len() - i,
    {
        if v[i] == c {
            return i;
        }
        i = i + 1;
    }
    i
}

pub fn find_comment_from(v: &Vec<char>, from: usize) -> (res: usize)
    ensures
        res == find_comment(v@, from as int),
        res <= v@.len(),
        from <= v@.len() ==> from <= res,
{
    if from >= v.len() {
        return v.len();
    }
    let mut i = from;
    while i < v.len()
        invariant
            find_comment(v@, from as int) == find_comment(v@, i as int),
            from <= i <= v@.len(),
        decreases v.len() - i,
    {
        if v[i] == '#' && (i == 0 || is_white_space_char(v[i - 1])) {
            return i;
        }
        i = i + 1;
    }
    i
}

fn strip_export_chars(v: Vec<char>) -> (res: Vec<char>)
    ensures
        res@ == strip_export(v@),
{
    if v.len() > 6 && is_white_space_char(v[6]) {
        let head = string_from_chars(&v, 0, 6);
        if same_text(head.as_str(), "export") {
            let rest = string_from_chars(&v, 7, v.len());
            let t = chars_of(crate::text::trim_leading(rest.as_str()).as_str());
            return t;
        }
    }
    v
}

fn env_value(raw: &Vec<char>) -> (res: String)
    ensures
        res@ == env_value_text(raw@),
{
    if raw.len() > 0 && (raw[0] == '\'' || raw[0] == '"') {
        let close = find_char_from(raw, raw[0], 1);
        if close < raw.len() {
            return string_from_chars(raw, 1, close);
        }
    }
    let end = find_comment_from(raw, 0);
    let value = string_from_chars(raw, 0, end);
    crate::text::trim_trailing(value.as_str())
}

/// The key and value that a `.env` line assigns, if it assigns one.
pub fn parse_env_line(line: &str) -> (res: Option<(String, String)>)
    ensures
        match res {
            Some((k, v)) => env_assignment(line@) == Some((k@, v@)),
            None => env_assignment(line@) is None,
        },
{
    let t = strip_export_chars(chars_of(trim(line).as_str()));
    if t.len() == 0 || t[0] == '#' {
        return None;
    }
    let eq = find_char_from(&t, '=', 0);
    if eq >= t.len() {
        return None;
    }
    let key = trim(string_from_chars(&t, 0, eq).as_str());
    assert(t@.take(eq as int) =~= t@.subrange(0, eq as int));
    if key.as_str().unicode_len() == 0 {
        return None;
    }
    let raw = chars_of(trim(string_from_chars(&t, eq + 1, t.len()).as_str()).as_str());
    assert(t@.skip(eq + 1) =~= t@.subrange(eq + 1, t@.len() as int));
    let value = env_value(&raw);
    Some((key, value))
}

} // verus!
verus! {

/// The value that the last assignment of `key` among `lines` gives it.
pub open spec fn env_lookup(lines: Seq<Seq<char>>, key: Seq<char>) -> Option<Seq<char>>
    decreases lines.len(),
{
    if lines.len() == 0 {
        None
    } else {
        match env_assignment(lines.last()) {
            Some((k, v)) => if k == key {
                Some(v)
            } else {
                env_lookup(lines.drop_last(), key)
            },
            None => env_lookup(lines.drop_last(), key),
        }
    }
}

pub open spec fn line_texts(lines: Seq<&str>) -> Seq<Seq<char>> {
    lines.map_values(|l: &str| l@)
}

/// The value that the lines of a `.env` file give `key`; a later assignment
/// overrides an earlier one.
pub fn env_file_value(lines: &[&str], key: &str) -> (res: Option<String>)
    ensures
        crate::text::opt_view(res) == env_lookup(line_texts(lines@), key@),
{
    let ghost all = line_texts(lines@);
    let mut i = lines.len();
    assert(all.take(i as int) =~= all);
    while i > 0
        invariant
            all == line_texts(lines@),
            i <= lines@.len(),
            env_lookup(all, key@) == env_lookup(all.take(i as int), key@),
        decreases i,
    {
        assert(all.take(i as int).last() == lines@[i - 1]@);
        assert(all.take(i as int).drop_last() =~= all.take(i - 1));
        match parse_env_line(lines[i - 1]) {
            Some((k, v)) => {
                if same_text(k.as_str(), key) {
                    return Some(v);
                }
            },
            None => {},
        }
        i = i - 1;
    }
    None
}

/// The words that switch a setting off.
pub open spec fn is_off_word(v: Seq<char>) -> bool {
    v == "0"@ || v == "false"@ || v == "no"@ || v == "off"@
}

/// The plugin runs unless its enabled setting is an off word (in any case,
/// around white space).
pub open spec fn enabled_by(value: Option<Seq<char>>) -> bool {
    match value {
        Some(v) => !is_off_word(ascii_lower(trimmed(v))),
        None => true,
    }
}

pub fn setting_enabled(value: Option<&str>) -> (res: bool)
    ensures
        res == enabled_by(crate::text::opt_view(value)),
{
    match value {
        Some(v) => {
            let w = to_ascii_lowercase(trim(v).as_str());
            let w = w.as_str();
            !(same_text(w, "0") || same_text(w, "false") || same_text(w, "no") || same_text(
                w,
                "off",
            ))
        },
        None => true,
    }
}

/// A word setting: trimmed and lowercased, or `default` when absent or blank.
pub open spec fn word_setting(value: Option<Seq<char>>, default: Seq<char>) -> Seq<char> {
    match value {
        Some(v) => if trimmed(v).len() > 0 {
            ascii_lower(trimmed(v))
        } else {
            default
        },
        None => default,
    }
}

fn word_or(value: Option<&str>, default: &str) -> (res: String)
    ensures
        res@ == word_setting(crate::text::opt_view(value), default@),
{
    match value {
        Some(v) => {
            let t = trim(v);
            if t.as_str().unicode_len() > 0 {
                return to_ascii_lowercase(t.as_str());
            }
            default.to_owned()
        },
        None => default.to_owned(),
    }
}

/// The away mode: `off` (the default), `replace` or `also`.
pub fn away_mode_setting(value: Option<&str>) -> (res: String)
    ensures
        res@ == word_setting(crate::text::opt_view(value), "off"@),
{
    word_or(value, "off")
}

/// When the away fallback applies; `locked` is the default.
pub fn away_when_setting(value: Option<&str>) -> (res: String)
    ensures
        res@ == word_setting(crate::text::opt_view(value), "locked"@),
{
    word_or(value, "locked")
}

} // verus!
verus! {

pub proof fn lemma_find_char_bounds(s: Seq<char>, c: char, from: int)
    requires
        0 <= from,
    ensures
        from <= find_char(s, c, from) <= s.len() || (from > s.len() && find_char(s, c, from)
            == s.len()),
        find_char(s, c, from) < s.len() ==> s[find_char(s, c, from)] == c,
    decreases s.len() - from,
{
    if from < s.len() && s[from] != c {
        lemma_find_char_bounds(s, c, from + 1);
    }
}

proof fn lemma_find_char_shift(s: Seq<char>, c: char, start: int, from: int)
    requires
        0 <= start <= s.len(),
        0 <= from,
    ensures
        find_char(s.skip(start), c, from) == find_char(s, c, start + from) - start,
    decreases s.len() - start - from,
{
    if start + from < s.len() && s[start + from] != c {
        lemma_find_char_shift(s, c, start, from + 1);
    }
}

/// The recipients of a comma-separated list: each entry trimmed, blank
/// entries left out.
pub open spec fn recipient_list(s: Seq<char>) -> Seq<Seq<char>>
    decreases s.len(),
{
    let i = find_char(s, ',', 0);
    proof {
        lemma_find_char_bounds(s, ',', 0);
    }
    let head = trimmed(s.take(i));
    let rest = if i >= s.len() {
        Seq::<Seq<char>>::empty()
    } else {
        recipient_list(s.skip(i + 1))
    };
    if head.len() > 0 {
        seq![head] + rest
    } else {
        rest
    }
}

pub open spec fn string_texts(v: Seq<String>) -> Seq<Seq<char>> {
    v.map_values(|s: String| s@)
}

pub fn split_recipients(value: &str) -> (res: Vec<String>)
    ensures
        string_texts(res@) == recipient_list(value@),
{
    let v = chars_of(value);
    let mut out: Vec<String> = Vec::new();
    let mut start: usize = 0;
    assert(v@.skip(0) =~= v@);
    loop
        invariant
            v@ == value@,
            start <= v@.len(),
            string_texts(out@) + recipient_list(v@.skip(start as int)) == recipient_list(v@),
        decreases v@.len() - start,
    {
        let ghost rest = v@.skip(start as int);
        let i = find_char_from(&v, ',', start);
        proof {
            lemma_find_char_shift(v@, ',', start as int, 0);
            lemma_find_char_bounds(v@, ',', start as int);
        }
        let field = trim(string_from_chars(&v, start, i).as_str());
        assert(rest.take(i - start) =~= v@.subrange(start as int, i as int));
        let ghost before = out@;
        if field.as_str().unicode_len() > 0 {
            out.push(field);
            assert(string_texts(out@) =~= string_texts(before) + seq![field@]);
        }
        if i >= v.len() {
            assert(string_texts(out@) =~= recipient_list(v@));
            return out;
        }
        assert(rest.skip(i - start + 1) =~= v@.skip(i + 1));
        start = i + 1;
    }
}

} // verus!
verus! {

pub open spec fn is_digit(c: char) -> bool {
    '0' <= c <= '9'
}

pub open spec fn all_digits(s: Seq<char>) -> bool {
    forall|i: int| 0 <= i < s.len() ==> is_digit(#[trigger] s[i])
}

/// The number that a run of decimal digits spells.
pub open spec fn decimal_value(s: Seq<char>) -> int
    decreases s.len(),
{
    if s.len() == 0 {
        0
    } else {
        decimal_value(s.drop_last()) * 10 + ((s.last() as u32) - ('0' as u32))
    }
}

/// The notification timeout in seconds (`0` keeps it until dismissed): a
/// decimal number that fits 64 bits, or else 3600.
pub open spec fn timeout_seconds(value: Option<Seq<char>>) -> int {
    match value {
        Some(v) => {
            let t = trimmed(v);
            if t.len() > 0 && all_digits(t) && decimal_value(t) <= u64::MAX {
                decimal_value(t)
            } else {
                3600
            }
        },
        None => 3600,
    }
}

proof fn lemma_decimal_prefix_grows(s: Seq<char>, k: int)
    requires
        all_digits(s),
        0 <= k <= s.len(),
    ensures
        0 <= decimal_value(s.take(k)) <= decimal_value(s),
    decreases s.len() - k,
{
    if k < s.len() {
        lemma_decimal_prefix_grows(s, k + 1);
        assert(s.take(k + 1).drop_last() =~= s.take(k));
        assert(is_digit(s[k]));
    } else {
        assert(s.take(k) =~= s);
        lemma_decimal_nonneg(s);
    }
}

proof fn lemma_decimal_nonneg(s: Seq<char>)
    requires
        all_digits(s),
    ensures
        decimal_value(s) >= 0,
    decreases s.len(),
{
    if s.len() > 0 {
        assert(all_digits(s.drop_last())) by {
            assert forall|i: int| 0 <= i < s.drop_last().len() implies is_digit(
                #[trigger] s.drop_last()[i],
            ) by {
                assert(s.drop_last()[i] == s[i]);
            }
        }
        lemma_decimal_nonneg(s.drop_last());
        assert(is_digit(s[s.len() - 1]));
    }
}

pub fn timeout_setting(value: Option<&str>) -> (res: u64)
    ensures
        res == timeout_seconds(crate::text::opt_view(value)),
{
    let text = match value {
        Some(text) => text,
        None => return 3600,
    };
    let v = chars_of(trim(text).as_str());
    if v.len() == 0 {
        return 3600;
    }
    let mut acc: u64 = 0;
    let mut i: usize = 0;
    while i < v.len()
        invariant
            value == Some(text),
            v@ == trimmed(text@),
            i <= v@.len(),
            acc == decimal_value(v@.take(i as int)),
            forall|k: int| 0 <= k < i ==> is_digit(#[trigger] v@[k]),
        decreases v.len() - i,
    {
        let c = v[i];
        if !('0' <= c && c <= '9') {
            assert(!is_digit(v@[i as int]));
            assert(!all_digits(v@));
            return 3600;
        }
        assert(v@.take(i + 1).drop_last() =~= v@.take(i as int));
        let d = ((c as u32) - ('0' as u32)) as u64;
        let next = match acc.checked_mul(10) {
            Some(m) => m.checked_add(d),
            None => None,
        };
        match next {
            Some(n) => {
                acc = n;
            },
            None => {
                proof {
                    assert(decimal_value(v@.take(i + 1)) == acc * 10 + d);
                    assert(acc * 10 + d > u64::MAX);
                    assert(all_digits(v@) ==> decimal_value(v@) > u64::MAX) by {
                        if all_digits(v@) {
                            lemma_decimal_prefix_grows(v@, i + 1);
                        }
                    }
                }
                return 3600;
            },
        }
        i = i + 1;
    }
    assert(v@.take(v@.len() as int) =~= v@);
    acc
}

/// The index of the last `c` in `s`, or -1.
pub open spec fn find_last_char(s: Seq<char>, c: char) -> int
    decreases s.len(),
{
    if s.len() == 0 {
        -1
    } else if s.last() == c {
        s.len() - 1
    } else {
        find_last_char(s.drop_last(), c)
    }
}

/// The application name of the activate setting: the setting itself, or for
/// a path the part after the last `/` without its `.app` suffix.
pub open spec fn app_name_text(value: Seq<char>) -> Seq<char> {
    let t = trimmed(value);
    let name = t.skip(find_last_char(t, '/') + 1);
    if name.len() >= 4 && name.skip(name.len() - 4) == ".app"@ {
        name.take(name.len() - 4)
    } else {
        name
    }
}

pub fn app_name_from_setting(value: &str) -> (res: String)
    ensures
        res@ == app_name_text(value@),
{
    let t = chars_of(trim(value).as_str());
    let mut j = t.len();
    assert(t@.take(j as int) =~= t@);
    while j > 0
        invariant
            j <= t@.len(),
            find_last_char(t@, '/') == find_last_char(t@.take(j as int), '/'),
        ensures
            j <= t@.len(),
            find_last_char(t@, '/') == find_last_char(t@.take(j as int), '/'),
            j > 0 ==> t@[j - 1] == '/',
        decreases j,
    {
        assert(t@.take(j as int).last() == t@[j - 1]);
        assert(t@.take(j as int).drop_last() =~= t@.take(j - 1));
        if t[j - 1] == '/' {
            break;
        }
        j = j - 1;
    }
    proof {
        if j == 0 {
            assert(t@.take(0) =~= Seq::<char>::empty());
        }
    }
    let name = string_from_chars(&t, j, t.len());
    assert(t@.skip(j as int) =~= t@.subrange(j as int, t@.len() as int));
    assert(j > 0 ==> find_last_char(t@.take(j as int), '/') == j - 1);
    assert(name@ == t@.skip(find_last_char(t@, '/') + 1));
    let nv = chars_of(name.as_str());
    let n = nv.len();
    if n >= 4 {
        let tail = string_from_chars(&nv, n - 4, n);
        assert(nv@.skip(n - 4) =~= nv@.subrange(n - 4, n as int));
        if same_text(tail.as_str(), ".app") {
            assert(nv@.take(n - 4) =~= nv@.subrange(0, n - 4));
            return string_from_chars(&nv, 0, n - 4);
        }
    }
    name
}

} // verus!
verus! {

/// Whether the terminal app is frontmost, from the name of the frontmost
/// application and the activate setting; unknown when the setting names no
/// application.
pub open spec fn terminal_frontmost_state(frontmost: Seq<char>, activate_app: Seq<char>) -> Option<
    bool,
> {
    if app_name_text(activate_app).len() == 0 {
        None
    } else {
        Some(trimmed(frontmost) == app_name_text(activate_app))
    }
}

pub fn terminal_is_frontmost(frontmost: &str, activate_app: &str) -> (res: Option<bool>)
    ensures
        res == terminal_frontmost_state(frontmost@, activate_app@),
{
    let name = app_name_from_setting(activate_app);
    if name.as_str().unicode_len() == 0 {
        return None;
    }
    Some(same_text(trim(frontmost).as_str(), name.as_str()))
}

} // verus!
verus! {

/// The words that switch an opt-in setting on.
pub open spec fn is_on_word(v: Seq<char>) -> bool {
    v == "1"@ || v == "true"@ || v == "yes"@ || v == "on"@
}

/// An opt-in setting (such as debug output) is on only when set to an on word
/// (in any case, around white space).
pub open spec fn switched_on(value: Option<Seq<char>>) -> bool {
    match value {
        Some(v) => is_on_word(ascii_lower(trimmed(v))),
        None => false,
    }
}

pub fn setting_on(value: Option<&str>) -> (res: bool)
    ensures
        res == switched_on(crate::text::opt_view(value)),
{
    match value {
        Some(v) => {
            let w = to_ascii_lowercase(trim(v).as_str());
            let w = w.as_str();
            same_text(w, "1") || same_text(w, "true") || same_text(w, "yes") || same_text(w, "on")
        },
        None => false,
    }
}

} // verus!
verus! {

proof fn lemma_no_comment_from(s: Seq<char>, from: int)
    requires
        0 <= from,
        forall|i: int|
            0 <= i < s.len() && #[trigger] s[i] == '#' ==> i > 0 && !is_white_space(s[i - 1]),
    ensures
        find_comment(s, from) == s.len(),
    decreases s.len() - from,
{
    if from < s.len() {
        lemma_no_comment_from(s, from + 1);
    }
}

/// An unquoted value is the whole trimmed text after `=`, inner spaces kept;
/// only an inline comment (a `#` at its start or after white space) cuts it.
pub proof fn law_unquoted_value_kept_whole(raw: Seq<char>)
    requires
        raw.len() == 0 || (raw[0] != '\'' && raw[0] != '"'),
        raw.len() == 0 || !is_white_space(raw.last()),
        forall|i: int|
            0 <= i < raw.len() && #[trigger] raw[i] == '#' ==> i > 0 && !is_white_space(raw[i - 1]),
    ensures
        env_value_text(raw) == raw,
{
    lemma_no_comment_from(raw, 0);
    assert(raw.take(raw.len() as int) =~= raw);
}

/// A quoted value is the text between its quote and the next equal quote.
pub proof fn law_quoted_value_is_inner_text(q: char, inner: Seq<char>, rest: Seq<char>)
    requires
        q == '\'' || q == '"',
        !inner.contains(q),
    ensures
        env_value_text(seq![q] + inner + seq![q] + rest) == inner,
{
    let raw = seq![q] + inner + seq![q] + rest;
    let at: int = inner.len() as int + 1;
    assert(raw[at] == q);
    assert forall|k: int| 1 <= k < at implies raw[k] != q by {
        assert(raw[k] == inner[k - 1]);
        assert(inner.contains(inner[k - 1]));
    }
    lemma_find_char_skips(raw, q, 1, at);
    assert(raw.subrange(1, at) =~= inner);
}

proof fn lemma_find_char_skips(s: Seq<char>, c: char, from: int, at: int)
    requires
        0 <= from <= at < s.len(),
        s[at] == c,
        forall|k: int| from <= k < at ==> s[k] != c,
    ensures
        find_char(s, c, from) == at,
    decreases at - from,
{
    if from < at {
        lemma_find_char_skips(s, c, from + 1, at);
    }
}

} // verus!
verus! {

proof fn lemma_trimmed_when_no_outer_space(x: Seq<char>)
    requires
        x.len() == 0 || (!is_white_space(x[0]) && !is_white_space(x.last())),
    ensures
        trimmed(x) == x,
{
}

/// A line `KEY=value`, with a key of one word and a value without outer white
/// space, assigns that key the value read from the text after `=`.
pub proof fn law_assignment_line(k: Seq<char>, v: Seq<char>)
    requires
        k.len() > 0,
        k[0] != '#',
        forall|i: int| 0 <= i < k.len() ==> !is_white_space(#[trigger] k[i]) && k[i] != '=',
        v.len() == 0 || (!is_white_space(v[0]) && !is_white_space(v.last())),
    ensures
        env_assignment(k + "="@ + v) == Some((k, env_value_text(v))),
{
    reveal_strlit("=");
    reveal_strlit("export");
    let line = k + "="@ + v;
    let n = k.len() as int;
    assert(line[n] == '=');
    assert(line[0] == k[0]);
    assert(line.last() == if v.len() == 0 { '=' } else { v.last() });
    lemma_trimmed_when_no_outer_space(line);
    assert(strip_export(line) == line) by {
        if line.len() > 6 && line.take(6) == "export"@ && is_white_space(line[6]) {
            if n >= 6 {
                if n > 6 {
                    assert(line[6] == k[6]);
                }
            } else {
                assert(line.take(6)[n] == line[n]);
                assert("export"@[n] != '=');
            }
        }
    }
    assert forall|i: int| 0 <= i < n implies line[i] != '=' by {
        assert(line[i] == k[i]);
    }
    lemma_find_char_skips(line, '=', 0, n);
    assert(line.take(n) =~= k);
    lemma_trimmed_when_no_outer_space(k);
    assert(line.skip(n + 1) =~= v);
    lemma_trimmed_when_no_outer_space(v);
}

} // verus!
