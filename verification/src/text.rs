//! Character-level string helpers with exact specifications.

use vstd::prelude::*;

verus! {

/// Two strings hold the same characters.
pub fn same_text(a: &str, b: &str) -> (res: bool)
    ensures
        res == (a@ == b@),
{
    let n = a.unicode_len();
    if n != b.unicode_len() {
        return false;
    }
    let mut i: usize = 0;
    while i < n
        invariant
            n == a@.len(),
            n == b@.len(),
            i <= n,
            forall|k: int| 0 <= k < i ==> a@[k] == b@[k],
        decreases n - i,
    {
        if a.get_char(i) != b.get_char(i) {
            return false;
        }
        i = i + 1;
    }
    assert(a@ =~= b@);
    true
}

} // verus!
verus! {

/// The characters of a string, in order.
pub fn chars_of(s: &str) -> (v: Vec<char>)
    ensures
        v@ == s@,
{
    broadcast use vstd::string::group_string_axioms;
    let mut v: Vec<char> = Vec::new();
    for c in it: s.chars()
        invariant
            v@ == it.seq().take(it.index() as int),
    {
        v.push(c);
    }
    v
}

} // verus!
verus! {

/// `String::push`: appends one character.
#[verifier::external_body]
pub(crate) fn push_char(s: &mut String, c: char)
    ensures
        final(s)@ == old(s)@.push(c),
{
    s.push(c);
}

/// Unicode `White_Space`, the property that `str::trim` removes.
pub open spec fn is_white_space(c: char) -> bool {
    let u = c as u32;
    ||| 0x09 <= u <= 0x0d
    ||| u == 0x20
    ||| u == 0x85
    ||| u == 0xa0
    ||| u == 0x1680
    ||| 0x2000 <= u <= 0x200a
    ||| u == 0x2028
    ||| u == 0x2029
    ||| u == 0x202f
    ||| u == 0x205f
    ||| u == 0x3000
}

/// `s` without its leading white space.
pub open spec fn trim_start(s: Seq<char>) -> Seq<char>
    decreases s.len(),
{
    if s.len() > 0 && is_white_space(s[0]) {
        trim_start(s.drop_first())
    } else {
        s
    }
}

/// `s` without its trailing white space.
pub open spec fn trim_end(s: Seq<char>) -> Seq<char>
    decreases s.len(),
{
    if s.len() > 0 && is_white_space(s.last()) {
        trim_end(s.drop_last())
    } else {
        s
    }
}

/// `s` without leading and trailing white space.
pub open spec fn trimmed(s: Seq<char>) -> Seq<char> {
    trim_end(trim_start(s))
}

pub fn is_white_space_char(c: char) -> (res: bool)
    ensures
        res == is_white_space(c),
{
    let u = c as u32;
    (0x09 <= u && u <= 0x0d) || u == 0x20 || u == 0x85 || u == 0xa0 || u == 0x1680 || (0x2000
        <= u && u <= 0x200a) || u == 0x2028 || u == 0x2029 || u == 0x202f || u == 0x205f || u
        == 0x3000
}

/// A new string holding `v[from..to]`.
pub fn string_from_chars(v: &Vec<char>, from: usize, to: usize) -> (s: String)
    requires
        from <= to <= v@.len(),
    ensures
        s@ == v@.subrange(from as int, to as int),
{
    let mut s = String::new();
    let mut i = from;
    while i < to
        invariant
            from <= i <= to <= v@.len(),
            s@ == v@.subrange(from as int, i as int),
        decreases to - i,
    {
        push_char(&mut s, v[i]);
        assert(v@.subrange(from as int, i + 1) =~= v@.subrange(from as int, i as int).push(v@[i as int]));
        i = i + 1;
    }
    s
}

proof fn lemma_trim_start_skip(s: Seq<char>, i: int)
    requires
        0 <= i < s.len(),
        is_white_space(s[i]),
    ensures
        trim_start(s.subrange(i, s.len() as int)) == trim_start(s.subrange(i + 1, s.len() as int)),
{
    assert(s.subrange(i, s.len() as int).drop_first() =~= s.subrange(i + 1, s.len() as int));
}

proof fn lemma_trim_end_skip(s: Seq<char>, i: int, j: int)
    requires
        0 <= i < j <= s.len(),
        is_white_space(s[j - 1]),
    ensures
        trim_end(s.subrange(i, j)) == trim_end(s.subrange(i, j - 1)),
{
    assert(s.subrange(i, j).drop_last() =~= s.subrange(i, j - 1));
}

/// `str::trim`, returning an owned string.
pub fn trim(s: &str) -> (res: String)
    ensures
        res@ == trimmed(s@),
{
    let v = chars_of(s);
    let n = v.len();
    let mut i: usize = 0;
    assert(v@.subrange(0, n as int) =~= v@);
    while i < n
        invariant
            n == v@.len(),
            v@ == s@,
            i <= n,
            trim_start(s@) == trim_start(v@.subrange(i as int, n as int)),
        ensures
            i <= n,
            trim_start(s@) == trim_start(v@.subrange(i as int, n as int)),
            i < n ==> !is_white_space(v@[i as int]),
        decreases n - i,
    {
        if !is_white_space_char(v[i]) {
            break;
        }
        proof {
            lemma_trim_start_skip(v@, i as int);
        }
        i = i + 1;
    }
    assert(i < n ==> v@.subrange(i as int, n as int)[0] == v@[i as int]);
    assert(trim_start(s@) == v@.subrange(i as int, n as int));
    let mut j: usize = n;
    while j > i
        invariant
            n == v@.len(),
            i <= j <= n,
            trimmed(s@) == trim_end(v@.subrange(i as int, j as int)),
        ensures
            i <= j <= n,
            trimmed(s@) == trim_end(v@.subrange(i as int, j as int)),
            j > i ==> !is_white_space(v@[j - 1]),
        decreases j,
    {
        if !is_white_space_char(v[j - 1]) {
            break;
        }
        proof {
            lemma_trim_end_skip(v@, i as int, j as int);
        }
        j = j - 1;
    }
    assert(j > i ==> v@.subrange(i as int, j as int).last() == v@[j - 1]);
    string_from_chars(&v, i, j)
}

} // verus!
verus! {

/// `char::to_ascii_lowercase`.
pub open spec fn ascii_lower_char(c: char) -> char {
    if 'A' <= c <= 'Z' {
        ((c as u32) + 32) as char
    } else {
        c
    }
}

/// `str::to_ascii_lowercase`: ASCII capitals become small letters, all else stays.
pub open spec fn ascii_lower(s: Seq<char>) -> Seq<char> {
    s.map_values(|c: char| ascii_lower_char(c))
}

pub fn to_ascii_lowercase(s: &str) -> (res: String)
    ensures
        res@ == ascii_lower(s@),
{
    let v = chars_of(s);
    let mut out = String::new();
    let mut i: usize = 0;
    while i < v.len()
        invariant
            v@ == s@,
            i <= v@.len(),
            out@ == ascii_lower(v@.subrange(0, i as int)),
        decreases v.len() - i,
    {
        let c = v[i];
        let d = if 'A' <= c && c <= 'Z' {
            ((c as u8) + 32) as char
        } else {
            c
        };
        push_char(&mut out, d);
        assert(ascii_lower(v@.subrange(0, i + 1)) =~= ascii_lower(v@.subrange(0, i as int)).push(
            ascii_lower_char(c),
        ));
        i = i + 1;
    }
    assert(v@.subrange(0, v@.len() as int) =~= v@);
    out
}

/// `needle` occurs in `hay` starting at index `i`.
pub open spec fn occurs_at(hay: Seq<char>, needle: Seq<char>, i: int) -> bool {
    0 <= i && i + needle.len() <= hay.len() && hay.subrange(i, i + needle.len()) == needle
}

/// `str::contains` with a string pattern.
pub open spec fn contains_text(hay: Seq<char>, needle: Seq<char>) -> bool {
    exists|i: int| occurs_at(hay, needle, i)
}

/// Whether `needle` occurs in the characters `hay`.
pub fn chars_contain(hay: &Vec<char>, needle: &str) -> (res: bool)
    ensures
        res == contains_text(hay@, needle@),
{
    let nv = chars_of(needle);
    let m = nv.len();
    let n = hay.len();
    if m > n {
        return false;
    }
    let mut i: usize = 0;
    while i <= n - m
        invariant
            nv@ == needle@,
            m == nv@.len(),
            n == hay@.len(),
            m <= n,
            i <= n - m + 1,
            forall|k: int| 0 <= k < i ==> !occurs_at(hay@, needle@, k),
        decreases n - m + 1 - i,
    {
        let mut j: usize = 0;
        let mut matched = true;
        while j < m
            invariant
                nv@ == needle@,
                m == nv@.len(),
                n == hay@.len(),
                i + m <= n,
                j <= m,
                matched == (forall|k: int| 0 <= k < j ==> hay@[i + k] == nv@[k]),
            decreases m - j,
        {
            if hay[i + j] != nv[j] {
                matched = false;
            }
            j = j + 1;
        }
        if matched {
            assert(hay@.subrange(i as int, i + m) =~= needle@);
            assert(occurs_at(hay@, needle@, i as int));
            return true;
        }
        assert(!occurs_at(hay@, needle@, i as int)) by {
            if hay@.subrange(i as int, i + m) == needle@ {
                assert(forall|k: int| 0 <= k < m ==> hay@[i + k] == #[trigger] hay@.subrange(i as int, i + m)[k]);
            }
        }
        i = i + 1;
    }
    false
}

} // verus!
verus! {

/// The view of an optional value.
pub open spec fn opt_view<T: View>(o: Option<T>) -> Option<T::V> {
    match o {
        Some(x) => Some(x@),
        None => None,
    }
}

} // verus!
verus! {

/// `value` trimmed and cut to at most `max_chars` characters, where a cut
/// text keeps `max_chars - 3` characters (none if `max_chars < 3`) followed
/// by `...`.
pub open spec fn truncated(value: Seq<char>, max_chars: nat) -> Seq<char> {
    let t = trimmed(value);
    if t.len() <= max_chars {
        t
    } else {
        let keep: int = if max_chars >= 3 {
            max_chars - 3
        } else {
            0
        };
        t.take(keep) + "..."@
    }
}

pub fn truncate(value: &str, max_chars: usize) -> (res: String)
    ensures
        res@ == truncated(value@, max_chars as nat),
{
    let t = trim(value);
    let v = chars_of(t.as_str());
    if v.len() <= max_chars {
        return t;
    }
    let keep = max_chars.saturating_sub(3);
    let mut out = string_from_chars(&v, 0, keep);
    out.append("...");
    out
}

} // verus!
verus! {

/// A cut text never exceeds the limit (for limits of at least 3), and a text
/// that fits is only trimmed.
pub proof fn law_truncated_fits(value: Seq<char>, max_chars: nat)
    ensures
        max_chars >= 3 ==> truncated(value, max_chars).len() <= max_chars,
        trimmed(value).len() <= max_chars ==> truncated(value, max_chars) == trimmed(value),
{
    reveal_strlit("...");
}

} // verus!
verus! {

/// `str::trim_start`, returning an owned string.
pub fn trim_leading(s: &str) -> (res: String)
    ensures
        res@ == trim_start(s@),
{
    let v = chars_of(s);
    let n = v.len();
    let mut i: usize = 0;
    assert(v@.subrange(0, n as int) =~= v@);
    while i < n
        invariant
            n == v@.len(),
            v@ == s@,
            i <= n,
            trim_start(s@) == trim_start(v@.subrange(i as int, n as int)),
        ensures
            i <= n,
            trim_start(s@) == trim_start(v@.subrange(i as int, n as int)),
            i < n ==> !is_white_space(v@[i as int]),
        decreases n - i,
    {
        if !is_white_space_char(v[i]) {
            break;
        }
        proof {
            lemma_trim_start_skip(v@, i as int);
        }
        i = i + 1;
    }
    assert(i < n ==> v@.subrange(i as int, n as int)[0] == v@[i as int]);
    string_from_chars(&v, i, n)
}

/// `str::trim_end`, returning an owned string.
pub fn trim_trailing(s: &str) -> (res: String)
    ensures
        res@ == trim_end(s@),
{
    let v = chars_of(s);
    let n = v.len();
    let mut j: usize = n;
    assert(v@.subrange(0, n as int) =~= v@);
    while j > 0
        invariant
            n == v@.len(),
            v@ == s@,
            j <= n,
            trim_end(s@) == trim_end(v@.subrange(0, j as int)),
        ensures
            j <= n,
            trim_end(s@) == trim_end(v@.subrange(0, j as int)),
            j > 0 ==> !is_white_space(v@[j - 1]),
        decreases j,
    {
        if !is_white_space_char(v[j - 1]) {
            break;
        }
        proof {
            lemma_trim_end_skip(v@, 0, j as int);
        }
        j = j - 1;
    }
    assert(j > 0 ==> v@.subrange(0, j as int).last() == v@[j - 1]);
    string_from_chars(&v, 0, j)
}

} // verus!
