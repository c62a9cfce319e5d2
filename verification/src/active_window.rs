use vstd::prelude::*;
use vstd::string::*;

use crate::text::{
    split_seq, split_str, SplitSet, concat, contains, contains_seq, owned, starts_with, trim, trim_end_by, trim_end_set, trim_str,
    TrimSet,
};
use crate::url_sanitize::{sanitize_url, sanitized_domain, SanitizedUrl};

verus! {

/// The operating systems the tracker tells apart.
#[derive(Debug, Clone, Copy, PartialEq, Eq, Structural)]
pub enum Os {
    MacOs,
    Windows,
    /// Linux and every other system.
    Other,
}

/// The platform name reported with app-usage segments.
pub open spec fn platform_name(os: Os) -> Seq<char> {
    match os {
        Os::MacOs => "macos"@,
        Os::Windows => "windows"@,
        Os::Other => "linux"@,
    }
}

/// The platform name reported with app-usage segments: `macos`, `windows`,
/// and `linux` for everything else.
pub fn current_platform(os: Os) -> (r: &'static str)
    ensures
        r@ == platform_name(os),
{
    match os {
        Os::MacOs => "macos",
        Os::Windows => "windows",
        Os::Other => "linux",
    }
}

/// The frontmost window, as the app-usage tracker records it.
pub struct ActiveWindowSnapshot {
    pub app: String,
    pub exec_name: String,
    pub title: String,
    pub raw_url: Option<String>,
}

/// A word of a title without surrounding white space and trailing `,;)]`.
pub open spec fn clean_word(p: Seq<char>) -> Seq<char> {
    trim_end_by(trim(p), TrimSet::UrlPunct)
}

/// The address a title word stands for: the word itself when it starts with
/// `http://` or `https://`, `https://` put before it when it starts with `www.`.
pub open spec fn word_url(p: Seq<char>) -> Option<Seq<char>> {
    let t = clean_word(p);
    if "http://"@.is_prefix_of(t) || "https://"@.is_prefix_of(t) {
        Some(t)
    } else if "www."@.is_prefix_of(t) && contains_seq(t, "."@) {
        Some("https://"@ + t)
    } else {
        None
    }
}

/// Whether an address may begin at index `i` of a title word: at its start
/// or right after a `-`.
pub open spec fn may_start_at(w: Seq<char>, i: int) -> bool {
    i == 0 || (0 < i <= w.len() && w[i - 1] == '-')
}

/// The first address that begins in `w` at index `i` or later; it runs to
/// the end of the word, so a hyphenated host name stays whole.
pub open spec fn url_from(w: Seq<char>, i: int) -> Option<Seq<char>>
    decreases w.len() + 1 - i,
{
    if i < 0 || i > w.len() {
        None
    } else if may_start_at(w, i) && word_url(w.skip(i)) is Some {
        word_url(w.skip(i))
    } else {
        url_from(w, i + 1)
    }
}

/// The address a title word holds: the first place, at its start or after a
/// `-`, from which the rest of the word stands for an address.
pub open spec fn word_tail_url(w: Seq<char>) -> Option<Seq<char>> {
    url_from(w, 0)
}

/// The address of the first word that holds one.
pub open spec fn first_url(ps: Seq<Seq<char>>) -> Option<Seq<char>>
    decreases ps.len(),
{
    if ps.len() == 0 {
        None
    } else {
        match word_tail_url(ps[0]) {
            Some(u) => Some(u),
            None => first_url(ps.drop_first()),
        }
    }
}

/// The address that a window title mentions, if any.
pub open spec fn title_url(title: Seq<char>) -> Option<Seq<char>> {
    first_url(split_seq(title, SplitSet::TitleWords))
}

proof fn lemma_first_url_skip(ps: Seq<Seq<char>>, k: int)
    requires
        0 <= k <= ps.len(),
        forall|j: int| 0 <= j < k ==> word_tail_url(#[trigger] ps[j]) is None,
    ensures
        first_url(ps) == first_url(ps.skip(k)),
    decreases k,
{
    if k == 0 {
        assert(ps.skip(0) =~= ps);
    } else {
        assert(word_tail_url(ps[0]) is None);
        let q = ps.drop_first();
        assert forall|j: int| 0 <= j < k - 1 implies word_tail_url(#[trigger] q[j]) is None by {
            assert(q[j] == ps[j + 1]);
        }
        lemma_first_url_skip(q, k - 1);
        assert(q.skip(k - 1) =~= ps.skip(k));
    }
}

/// The address a title word stands for, if any.
pub fn word_url_exec(word: &str) -> (r: Option<String>)
    ensures
        match r {
            Some(u) => word_url(word@) == Some(u@),
            None => word_url(word@) is None,
        },
{
    let t0 = trim_str(word);
    let t = trim_end_set(t0.as_str(), TrimSet::UrlPunct);
    if starts_with(t.as_str(), "http://") || starts_with(t.as_str(), "https://") {
        return Some(t);
    }
    if starts_with(t.as_str(), "www.") && contains(t.as_str(), ".") {
        return Some(concat("https://", t.as_str()));
    }
    None
}

/// The address that begins at index `i` of `word` (of length `n`), if one does.
fn url_at(word: &str, i: usize, n: usize) -> (r: Option<String>)
    requires
        n == word@.len(),
        i <= n,
    ensures
        match r {
            Some(u) => may_start_at(word@, i as int) && word_url(word@.skip(i as int)) == Some(u@),
            None => !(may_start_at(word@, i as int) && word_url(word@.skip(i as int)) is Some),
        },
{
    let starts = i == 0 || word.get_char(i - 1) == '-';
    if !starts {
        return None;
    }
    let tail = word.substring_char(i, n);
    assert(tail@ =~= word@.skip(i as int));
    word_url_exec(tail)
}

/// The address a title word holds, if any (see `word_tail_url`).
pub fn word_tail_url_exec(word: &str) -> (r: Option<String>)
    ensures
        match r {
            Some(u) => word_tail_url(word@) == Some(u@),
            None => word_tail_url(word@) is None,
        },
{
    let n = word.unicode_len();
    let mut i: usize = 0;
    while i < n
        invariant
            n == word@.len(),
            i <= n,
            url_from(word@, 0) == url_from(word@, i as int),
        decreases n - i,
    {
        match url_at(word, i, n) {
            Some(u) => {
                return Some(u);
            },
            None => {},
        }
        i += 1;
    }
    let last = url_at(word, n, n);
    assert(url_from(word@, n as int + 1) is None);
    last
}

/// Finds an address in a window title. The title is split into words at
/// spaces, `|`, long dashes and new lines; in the first word that holds one,
/// the address begins at the word's start or after a `-` and runs to the
/// word's end. It starts with `http://` or `https://`, or with `www.` (then
/// `https://` is put before it).
pub fn infer_url(title: &str) -> (r: Option<String>)
    ensures
        match r {
            Some(u) => title_url(title@) == Some(u@),
            None => title_url(title@) is None,
        },
{
    let parts = split_str(title, SplitSet::TitleWords);
    let ghost ps = parts@.map_values(|p: String| p@);
    let mut k: usize = 0;
    while k < parts.len()
        invariant
            ps == parts@.map_values(|p: String| p@),
            ps == split_seq(title@, SplitSet::TitleWords),
            k <= parts.len(),
            forall|j: int| 0 <= j < k ==> word_tail_url(#[trigger] ps[j]) is None,
        decreases parts.len() - k,
    {
        let found = word_tail_url_exec(parts[k].as_str());
        assert(ps[k as int] == parts@[k as int]@);
        match found {
            Some(u) => {
                proof {
                    lemma_first_url_skip(ps, k as int);
                    assert(ps.skip(k as int)[0] == ps[k as int]);
                }
                return Some(u);
            },
            None => {},
        }
        k += 1;
    }
    proof {
        lemma_first_url_skip(ps, k as int);
        assert(ps.skip(k as int).len() == 0);
    }
    None
}

/// The name a window is recorded under: its trimmed application name, or the
/// executable's file name when the application name is blank. `None` when both are blank.
pub open spec fn window_name(app_name: Seq<char>, exec: Seq<char>) -> Option<Seq<char>> {
    if trim(app_name).len() == 0 && exec.len() == 0 {
        None
    } else if trim(app_name).len() == 0 {
        Some(exec)
    } else {
        Some(trim(app_name))
    }
}

/// The name a window is recorded under, or `None` for a window with neither
/// an application name nor an executable.
pub fn display_name(app_name: &str, exec: &str) -> (r: Option<String>)
    ensures
        match r {
            Some(n) => window_name(app_name@, exec@) == Some(n@),
            None => window_name(app_name@, exec@) is None,
        },
{
    let app = trim_str(app_name);
    let app_empty = app.unicode_len() == 0;
    if app_empty && exec.unicode_len() == 0 {
        return None;
    }
    if app_empty {
        Some(owned(exec))
    } else {
        Some(app)
    }
}

/// The snapshot of a window named `name`: its title trimmed, and its address
/// taken from the browser when one was read, else from the title.
pub fn snapshot(name: String, exec: String, title: &str, browser_url: Option<String>) -> (r:
    ActiveWindowSnapshot)
    ensures
        r.app@ == name@,
        r.exec_name@ == exec@,
        r.title@ == trim(title@),
        match browser_url {
            Some(u) => r.raw_url is Some && r.raw_url->0@ == u@,
            None => match title_url(trim(title@)) {
                Some(u) => r.raw_url is Some && r.raw_url->0@ == u,
                None => r.raw_url is None,
            },
        },
{
    let t = trim_str(title);
    let raw_url = match browser_url {
        Some(u) => Some(u),
        None => infer_url(t.as_str()),
    };
    ActiveWindowSnapshot { app: name, exec_name: exec, title: t, raw_url }
}

/// The address and domain kept of a snapshot's raw address (both the bare
/// host), or neither.
pub fn sanitized_from_snapshot(snap: &ActiveWindowSnapshot) -> (r: (Option<String>, Option<String>))
    ensures
        match sanitized_domain(
            match snap.raw_url {
                Some(u) => Some(u@),
                None => None,
            },
        ) {
            Some(d) => r.0 is Some && r.0->0@ == d && r.1 is Some && r.1->0@ == d,
            None => r.0 is None && r.1 is None,
        },
{
    let raw = match &snap.raw_url {
        Some(u) => Some(u.as_str()),
        None => None,
    };
    match sanitize_url(raw) {
        Some(s) => (Some(s.url), Some(s.domain)),
        None => (None, None),
    }
}

/// An address found in a window title always starts with `http://` or `https://`.
pub proof fn law_title_url_is_web_address(title: Seq<char>)
    ensures
        title_url(title) matches Some(u) ==> "http://"@.is_prefix_of(u) || "https://"@.is_prefix_of(
            u,
        ),
{
    lemma_first_url_web(split_seq(title, SplitSet::TitleWords));
}

proof fn lemma_first_url_web(ps: Seq<Seq<char>>)
    ensures
        first_url(ps) matches Some(u) ==> "http://"@.is_prefix_of(u) || "https://"@.is_prefix_of(u),
    decreases ps.len(),
{
    if ps.len() > 0 {
        lemma_url_from_web(ps[0], 0);
        lemma_first_url_web(ps.drop_first());
    }
}

proof fn lemma_word_url_web(p: Seq<char>)
    ensures
        word_url(p) matches Some(u) ==> "http://"@.is_prefix_of(u) || "https://"@.is_prefix_of(u),
{
    let t = clean_word(p);
    if !("http://"@.is_prefix_of(t) || "https://"@.is_prefix_of(t)) && "www."@.is_prefix_of(t)
        && contains_seq(t, "."@) {
        let u = "https://"@ + t;
        assert(u.subrange(0, "https://"@.len() as int) =~= "https://"@);
    }
}

proof fn lemma_url_from_web(w: Seq<char>, i: int)
    ensures
        url_from(w, i) matches Some(u) ==> "http://"@.is_prefix_of(u) || "https://"@.is_prefix_of(
            u,
        ),
    decreases w.len() + 1 - i,
{
    if 0 <= i <= w.len() {
        lemma_word_url_web(w.skip(i));
        lemma_url_from_web(w, i + 1);
    }
}

} // verus!
