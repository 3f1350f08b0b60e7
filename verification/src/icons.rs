//! Bundled agent icons.

use vstd::prelude::*;

use crate::event::opt_texts;
use crate::text::{ascii_lower_char, chars_of, opt_view, push_char, same_text};

verus! {

pub open spec fn is_ascii_alnum(c: char) -> bool {
    ||| 'a' <= c <= 'z'
    ||| 'A' <= c <= 'Z'
    ||| '0' <= c <= '9'
}

/// The lookup key of an agent name: its ASCII letters and digits, lowercased
/// (`GitHub Copilot` and `github-copilot` both give `githubcopilot`).
pub open spec fn icon_key(name: Seq<char>) -> Seq<char>
    decreases name.len(),
{
    if name.len() == 0 {
        seq![]
    } else {
        let key = icon_key(name.drop_last());
        let c = ascii_lower_char(name.last());
        if is_ascii_alnum(c) {
            key.push(c)
        } else {
            key
        }
    }
}

/// The agents whose icons are bundled.
pub open spec fn is_bundled_icon_key(key: Seq<char>) -> bool {
    ||| key == "codex"@
    ||| key == "claudecode"@
    ||| key == "cursor"@
    ||| key == "geminicli"@
    ||| key == "gemini"@
    ||| key == "githubcopilot"@
    ||| key == "deepseek"@
    ||| key == "grok"@
    ||| key == "qwen"@
    ||| key == "opencode"@
    ||| key == "openhands"@
    ||| key == "roocode"@
    ||| key == "cline"@
    ||| key == "windsurf"@
    ||| key == "devin"@
    ||| key == "manus"@
    ||| key == "kiro"@
    ||| key == "trae"@
    ||| key == "zencoder"@
    ||| key == "lovable"@
    ||| key == "v0"@
}

/// Where the bundled icon of a key lies, relative to the plugin directory.
pub open spec fn icon_path_for_key(key: Seq<char>) -> Seq<char> {
    "assets/icons/"@ + key + "-color.png"@
}

pub open spec fn icon_for_name(name: Option<Seq<char>>) -> Option<Seq<char>> {
    match name {
        Some(n) => if is_bundled_icon_key(icon_key(n)) {
            Some(icon_path_for_key(icon_key(n)))
        } else {
            None
        },
        None => None,
    }
}

/// The icon of the first of `names` that names an agent with a bundled icon.
pub open spec fn icon_for_names(names: Seq<Option<Seq<char>>>) -> Option<Seq<char>>
    decreases names.len(),
{
    if names.len() == 0 {
        None
    } else if icon_for_name(names[0]) is Some {
        icon_for_name(names[0])
    } else {
        icon_for_names(names.drop_first())
    }
}

pub fn agent_icon_key(name: &str) -> (res: String)
    ensures
        res@ == icon_key(name@),
{
    let v = chars_of(name);
    let mut out = String::new();
    let mut i: usize = 0;
    while i < v.len()
        invariant
            v@ == name@,
            i <= v@.len(),
            out@ == icon_key(v@.subrange(0, i as int)),
        decreases v.len() - i,
    {
        let c = v[i];
        let d = if 'A' <= c && c <= 'Z' {
            ((c as u8) + 32) as char
        } else {
            c
        };
        assert(v@.subrange(0, i + 1).drop_last() =~= v@.subrange(0, i as int));
        if ('a' <= d && d <= 'z') || ('0' <= d && d <= '9') {
            push_char(&mut out, d);
        }
        i = i + 1;
    }
    assert(v@.subrange(0, v@.len() as int) =~= v@);
    out
}

pub fn is_bundled_icon(k: &str) -> (res: bool)
    ensures
        res == is_bundled_icon_key(k@),
{
    same_text(k, "codex") || same_text(k, "claudecode")
        || same_text(k, "cursor")
        || same_text(k, "geminicli")
        || same_text(k, "gemini")
        || same_text(k, "githubcopilot")
        || same_text(k, "deepseek")
        || same_text(k, "grok")
        || same_text(k, "qwen")
        || same_text(k, "opencode")
        || same_text(k, "openhands")
        || same_text(k, "roocode")
        || same_text(k, "cline")
        || same_text(k, "windsurf")
        || same_text(k, "devin")
        || same_text(k, "manus")
        || same_text(k, "kiro")
        || same_text(k, "trae")
        || same_text(k, "zencoder")
        || same_text(k, "lovable")
        || same_text(k, "v0")
}

pub fn icon_for_agent_name(name: Option<&str>) -> (res: Option<String>)
    ensures
        opt_view(res) == icon_for_name(opt_view(name)),
{
    match name {
        Some(n) => {
            let key = agent_icon_key(n);
            if is_bundled_icon(key.as_str()) {
                let mut path = "assets/icons/".to_owned();
                path.append(key.as_str());
                path.append("-color.png");
                Some(path)
            } else {
                None
            }
        },
        None => None,
    }
}

/// The bundled icon of the first of `names` that names a known agent.
pub fn agent_icon_path(names: &[Option<&str>]) -> (res: Option<String>)
    ensures
        opt_view(res) == icon_for_names(opt_texts(names@)),
{
    let ghost all = opt_texts(names@);
    let n = names.len();
    let mut i: usize = 0;
    assert(all.subrange(0, n as int) =~= all);
    while i < n
        invariant
            n == names@.len(),
            all == opt_texts(names@),
            i <= n,
            icon_for_names(all) == icon_for_names(all.subrange(i as int, n as int)),
        decreases n - i,
    {
        let r = icon_for_agent_name(names[i]);
        assert(all.subrange(i as int, n as int)[0] == all[i as int]);
        if r.is_some() {
            return r;
        }
        assert(all.subrange(i as int, n as int).drop_first() =~= all.subrange(i + 1, n as int));
        i = i + 1;
    }
    None
}

} // verus!
verus! {

pub open spec fn is_key_char(c: char) -> bool {
    ('a' <= c <= 'z') || ('0' <= c <= '9')
}

proof fn lemma_icon_key_of_key(key: Seq<char>)
    requires
        forall|i: int| 0 <= i < key.len() ==> is_key_char(#[trigger] key[i]),
    ensures
        icon_key(key) == key,
    decreases key.len(),
{
    if key.len() > 0 {
        let rest = key.drop_last();
        assert forall|i: int| 0 <= i < rest.len() implies is_key_char(#[trigger] rest[i]) by {
            assert(rest[i] == key[i]);
        }
        lemma_icon_key_of_key(rest);
        assert(is_key_char(key[key.len() - 1]));
        assert(rest.push(key.last()) =~= key);
    }
}

/// The lookup keys of the agents whose icons the plugin bundles: Codex,
/// ClaudeCode, Cursor, Gemini CLI, Gemini, GitHub Copilot, DeepSeek, Grok,
/// Qwen, OpenCode, OpenHands, Roo Code, Cline, Windsurf, Devin, Manus, Kiro,
/// Trae, Zencoder, Lovable and v0.
pub open spec fn documented_icon_keys() -> Seq<Seq<char>> {
    seq![
        "codex"@,
        "claudecode"@,
        "cursor"@,
        "geminicli"@,
        "gemini"@,
        "githubcopilot"@,
        "deepseek"@,
        "grok"@,
        "qwen"@,
        "opencode"@,
        "openhands"@,
        "roocode"@,
        "cline"@,
        "windsurf"@,
        "devin"@,
        "manus"@,
        "kiro"@,
        "trae"@,
        "zencoder"@,
        "lovable"@,
        "v0"@
    ]
}

/// Every documented agent gets its bundled icon, `assets/icons/<key>-color.png`.
pub proof fn law_documented_agents_have_icons()
    ensures
        forall|i: int|
            0 <= i < documented_icon_keys().len() ==> icon_for_name(
                Some(#[trigger] documented_icon_keys()[i]),
            ) == Some("assets/icons/"@ + documented_icon_keys()[i] + "-color.png"@),
{
    reveal_strlit("codex");
    lemma_icon_key_of_key("codex"@);
    reveal_strlit("claudecode");
    lemma_icon_key_of_key("claudecode"@);
    reveal_strlit("cursor");
    lemma_icon_key_of_key("cursor"@);
    reveal_strlit("geminicli");
    lemma_icon_key_of_key("geminicli"@);
    reveal_strlit("gemini");
    lemma_icon_key_of_key("gemini"@);
    reveal_strlit("githubcopilot");
    lemma_icon_key_of_key("githubcopilot"@);
    reveal_strlit("deepseek");
    lemma_icon_key_of_key("deepseek"@);
    reveal_strlit("grok");
    lemma_icon_key_of_key("grok"@);
    reveal_strlit("qwen");
    lemma_icon_key_of_key("qwen"@);
    reveal_strlit("opencode");
    lemma_icon_key_of_key("opencode"@);
    reveal_strlit("openhands");
    lemma_icon_key_of_key("openhands"@);
    reveal_strlit("roocode");
    lemma_icon_key_of_key("roocode"@);
    reveal_strlit("cline");
    lemma_icon_key_of_key("cline"@);
    reveal_strlit("windsurf");
    lemma_icon_key_of_key("windsurf"@);
    reveal_strlit("devin");
    lemma_icon_key_of_key("devin"@);
    reveal_strlit("manus");
    lemma_icon_key_of_key("manus"@);
    reveal_strlit("kiro");
    lemma_icon_key_of_key("kiro"@);
    reveal_strlit("trae");
    lemma_icon_key_of_key("trae"@);
    reveal_strlit("zencoder");
    lemma_icon_key_of_key("zencoder"@);
    reveal_strlit("lovable");
    lemma_icon_key_of_key("lovable"@);
    reveal_strlit("v0");
    lemma_icon_key_of_key("v0"@);
    let keys = documented_icon_keys();
    assert forall|i: int|
        0 <= i < keys.len() implies icon_for_name(Some(#[trigger] keys[i])) == Some(
            "assets/icons/"@ + keys[i] + "-color.png"@,
        ) by {
        assert(icon_key(keys[i]) == keys[i]);
    }
}

} // verus!
