use vstd::prelude::*;
use vstd::string::*;

use crate::active_window::Os;
use crate::text::{
    ascii_lower_seq, concat, contains, contains_seq, eq_ignore_ascii_case, lowercase, replace,
    replace_all, str_eq, to_lowercase, trim, trim_str,
};

verus! {

/// How a browser's front tab is asked for its address: Safari-like browsers
/// name it `current tab`, Chrome-like ones `active tab`. Each carries the
/// application name that AppleScript addresses.
#[derive(Debug, Clone, Copy, PartialEq, Eq)]
pub enum BrowserKind {
    SafariLike(&'static str),
    ChromeLike(&'static str),
}

/// Whether `k` is the kind with the given family and application name.
pub open spec fn kind_is(k: BrowserKind, safari_like: bool, name: Seq<char>) -> bool {
    match k {
        BrowserKind::SafariLike(n) => safari_like && n@ == name,
        BrowserKind::ChromeLike(n) => !safari_like && n@ == name,
    }
}

/// A name as the classifier compares it: lower case, with `.app` removed.
pub open spec fn normalized(s: Seq<char>) -> Seq<char> {
    replace_all(lowercase(s), ".app"@, ""@)
}

/// The browser family and application name for a normalized application
/// name `a` and executable name `e`; the first rule that matches wins.
pub open spec fn classify_normalized(a: Seq<char>, e: Seq<char>) -> Option<(bool, Seq<char>)> {
    let hay = a + " "@ + e;
    if a == "safari"@ || e == "safari"@ || contains_seq(hay, "safari"@) {
        Some((true, "Safari"@))
    } else if a == "orion"@ || e == "orion"@ {
        Some((true, "Orion"@))
    } else if contains_seq(hay, "chromium"@) {
        Some((false, "Chromium"@))
    } else if contains_seq(hay, "google chrome"@) || a == "chrome"@ || e == "google chrome"@ {
        Some((false, "Google Chrome"@))
    } else if contains_seq(hay, "brave"@) {
        Some((false, "Brave Browser"@))
    } else if contains_seq(hay, "microsoft edge"@) || a == "edge"@ || contains_seq(e, "msedge"@) {
        Some((false, "Microsoft Edge"@))
    } else if a == "arc"@ || e == "arc"@ {
        Some((false, "Arc"@))
    } else if a == "vivaldi"@ || e == "vivaldi"@ {
        Some((false, "Vivaldi"@))
    } else if a == "opera"@ || e == "opera"@ || contains_seq(hay, "opera"@) {
        Some((false, "Opera"@))
    } else if a == "dia"@ || e == "dia"@ {
        Some((false, "Dia"@))
    } else {
        None
    }
}

/// Whether `r` is the classification of `app` and `exec`.
pub open spec fn classified_as(r: Option<BrowserKind>, app: Seq<char>, exec: Seq<char>) -> bool {
    match classify_normalized(normalized(app), normalized(exec)) {
        Some(p) => r is Some && kind_is(r->0, p.0, p.1),
        None => r is None,
    }
}

/// A browser whose normalized names mention "microsoft edge" (or whose
/// application is "edge", or whose executable mentions "msedge") is Microsoft
/// Edge, asked in the Chrome dialect, unless an earlier rule (Safari, Orion,
/// Chromium, Google Chrome, Brave) already claims it.
pub proof fn law_edge_is_chrome_like(a: Seq<char>, e: Seq<char>)
    requires
        contains_seq(a + " "@ + e, "microsoft edge"@) || a == "edge"@ || contains_seq(e, "msedge"@),
        !(a == "safari"@ || e == "safari"@ || contains_seq(a + " "@ + e, "safari"@)),
        !(a == "orion"@ || e == "orion"@),
        !contains_seq(a + " "@ + e, "chromium"@),
        !(contains_seq(a + " "@ + e, "google chrome"@) || a == "chrome"@ || e == "google chrome"@),
        !contains_seq(a + " "@ + e, "brave"@),
    ensures
        classify_normalized(a, e) == Some((false, "Microsoft Edge"@)),
        forall|r: Option<BrowserKind>, app: Seq<char>, exec: Seq<char>|
            normalized(app) == a && normalized(exec) == e && #[trigger] classified_as(r, app, exec)
                ==> (r matches Some(BrowserKind::ChromeLike(n)) && n@ == "Microsoft Edge"@),
{
}

/// Both normalized names, as the classifier searches them.
pub open spec fn names_of(a: Seq<char>, e: Seq<char>) -> Seq<char> {
    a + " "@ + e
}

/// Which browser a pair of normalized names stands for, rule by rule: a name
/// mentioning Safari is Safari whatever else it says; Orion is Safari-like
/// too; Chromium, Google Chrome and Brave (in that order) are Chrome-like;
/// after them Arc, Vivaldi, Opera and Dia; names matching no rule are no
/// browser. Every recognized browser is asked in its own family's dialect.
pub proof fn law_browser_rules(a: Seq<char>, e: Seq<char>)
    ensures
        contains_seq(names_of(a, e), "safari"@) || a == "safari"@ || e == "safari"@
            ==> classify_normalized(a, e) == Some((true, "Safari"@)),
        !contains_seq(names_of(a, e), "safari"@) && a != "safari"@ && e != "safari"@ && (a
            == "orion"@ || e == "orion"@) ==> classify_normalized(a, e) == Some((true, "Orion"@)),
        classify_normalized(a, e) matches Some(p) ==> (p.0 <==> (p.1 == "Safari"@ || p.1
            == "Orion"@)),
        !contains_seq(names_of(a, e), "safari"@) && a != "safari"@ && e != "safari"@ && a
            != "orion"@ && e != "orion"@ && contains_seq(names_of(a, e), "chromium"@)
            ==> classify_normalized(a, e) == Some((false, "Chromium"@)),
        !contains_seq(names_of(a, e), "safari"@) && a != "safari"@ && e != "safari"@ && a
            != "orion"@ && e != "orion"@ && !contains_seq(names_of(a, e), "chromium"@) && (
        contains_seq(names_of(a, e), "google chrome"@) || a == "chrome"@) ==> classify_normalized(
            a,
            e,
        ) == Some((false, "Google Chrome"@)),
        !contains_seq(names_of(a, e), "safari"@) && a != "safari"@ && e != "safari"@ && a
            != "orion"@ && e != "orion"@ && !contains_seq(names_of(a, e), "chromium"@)
            && !contains_seq(names_of(a, e), "google chrome"@) && a != "chrome"@ && e
            != "google chrome"@ && contains_seq(names_of(a, e), "brave"@) ==> classify_normalized(
            a,
            e,
        ) == Some((false, "Brave Browser"@)),
        classify_normalized(a, e) is None ==> !contains_seq(names_of(a, e), "safari"@)
            && !contains_seq(names_of(a, e), "chromium"@) && !contains_seq(
            names_of(a, e),
            "google chrome"@,
        ) && !contains_seq(names_of(a, e), "brave"@) && !contains_seq(
            names_of(a, e),
            "microsoft edge"@,
        ) && !contains_seq(names_of(a, e), "opera"@) && a != "arc"@ && e != "arc"@ && a
            != "vivaldi"@ && e != "vivaldi"@ && a != "dia"@ && e != "dia"@ && a != "orion"@ && e
            != "orion"@ && a != "edge"@ && !contains_seq(e, "msedge"@),
{
    reveal_strlit("Safari");
    reveal_strlit("Orion");
    reveal_strlit("Chromium");
    reveal_strlit("Google Chrome");
    reveal_strlit("Brave Browser");
    reveal_strlit("Microsoft Edge");
    reveal_strlit("Arc");
    reveal_strlit("Vivaldi");
    reveal_strlit("Opera");
    reveal_strlit("Dia");
    if classify_normalized(a, e) is Some {
        let p = classify_normalized(a, e)->0;
        if !p.0 {
            assert(p.1 != "Safari"@) by {
                if p.1 == "Safari"@ {
                    assert(p.1[0] == 'S');
                }
            }
            assert(p.1 != "Orion"@) by {
                if p.1 == "Orion"@ {
                    assert(p.1[0] == 'O' && p.1[1] == 'r');
                }
            }
        }
    }
}

/// A name lower-cased with `.app` removed.
pub fn norm(s: &str) -> (r: String)
    ensures
        r@ == normalized(s@),
{
    let lower = to_lowercase(s);
    proof {
        reveal_strlit(".app");
    }
    replace(lower.as_str(), ".app", "")
}

/// Recognizes the browsers whose front tab can be asked for its address.
pub fn classify(app: &str, exec: &str) -> (r: Option<BrowserKind>)
    ensures
        classified_as(r, app@, exec@),
{
    let a = norm(app);
    let e = norm(exec);
    let hay = concat(concat(a.as_str(), " ").as_str(), e.as_str());
    let a = a.as_str();
    let e = e.as_str();
    let h = hay.as_str();
    if str_eq(a, "safari") || str_eq(e, "safari") || contains(h, "safari") {
        return Some(BrowserKind::SafariLike("Safari"));
    }
    if str_eq(a, "orion") || str_eq(e, "orion") {
        return Some(BrowserKind::SafariLike("Orion"));
    }
    if contains(h, "chromium") {
        return Some(BrowserKind::ChromeLike("Chromium"));
    }
    if contains(h, "google chrome") || str_eq(a, "chrome") || str_eq(e, "google chrome") {
        return Some(BrowserKind::ChromeLike("Google Chrome"));
    }
    if contains(h, "brave") {
        return Some(BrowserKind::ChromeLike("Brave Browser"));
    }
    if contains(h, "microsoft edge") || str_eq(a, "edge") || contains(e, "msedge") {
        return Some(BrowserKind::ChromeLike("Microsoft Edge"));
    }
    if str_eq(a, "arc") || str_eq(e, "arc") {
        return Some(BrowserKind::ChromeLike("Arc"));
    }
    if str_eq(a, "vivaldi") || str_eq(e, "vivaldi") {
        return Some(BrowserKind::ChromeLike("Vivaldi"));
    }
    if str_eq(a, "opera") || str_eq(e, "opera") || contains(h, "opera") {
        return Some(BrowserKind::ChromeLike("Opera"));
    }
    if str_eq(a, "dia") || str_eq(e, "dia") {
        return Some(BrowserKind::ChromeLike("Dia"));
    }
    None
}

/// The AppleScript that asks the browser application `name` for its front
/// tab's address, in the Safari or the Chrome dialect.
pub open spec fn script_text(safari_like: bool, name: Seq<char>) -> Seq<char> {
    if safari_like {
        "tell application \""@ + name + "\" to get URL of current tab of front window"@
    } else {
        "tell application \""@ + name + "\" to get URL of active tab of front window"@
    }
}

/// The AppleScript that asks a browser of kind `k` for its front tab's address.
pub open spec fn script_for(k: BrowserKind) -> Seq<char> {
    match k {
        BrowserKind::SafariLike(n) => script_text(true, n@),
        BrowserKind::ChromeLike(n) => script_text(false, n@),
    }
}

/// The AppleScript that asks a browser of kind `k` for its front tab's address.
pub fn tab_url_script(k: BrowserKind) -> (r: String)
    ensures
        r@ == script_for(k),
{
    match k {
        BrowserKind::SafariLike(n) => concat(
            concat("tell application \"", n).as_str(),
            "\" to get URL of current tab of front window",
        ),
        BrowserKind::ChromeLike(n) => concat(
            concat("tell application \"", n).as_str(),
            "\" to get URL of active tab of front window",
        ),
    }
}

/// The script that reads the focused browser's address: only on macOS (through
/// Automation), and only for a recognized browser.
pub fn browser_url_script(app: &str, exec: &str, os: Os) -> (r: Option<String>)
    ensures
        os != Os::MacOs ==> r is None,
        os == Os::MacOs ==> match classify_normalized(normalized(app@), normalized(exec@)) {
            None => r is None,
            Some(p) => r is Some && r->0@ == script_text(p.0, p.1),
        },
{
    if os != Os::MacOs {
        return None;
    }
    match classify(app, exec) {
        Some(k) => Some(tab_url_script(k)),
        None => None,
    }
}

/// What a finished script run yields: its trimmed output, unless the run
/// failed or the output is blank or AppleScript's `missing value`.
pub open spec fn script_result(success: bool, stdout: Seq<char>) -> Option<Seq<char>> {
    if !success {
        None
    } else if trim(stdout).len() == 0 || ascii_lower_seq(trim(stdout)) == ascii_lower_seq(
        "missing value"@,
    ) {
        None
    } else {
        Some(trim(stdout))
    }
}

/// The address a finished script run reported, if any.
pub fn script_output_url(success: bool, stdout: &str) -> (r: Option<String>)
    ensures
        match script_result(success, stdout@) {
            Some(u) => r is Some && r->0@ == u,
            None => r is None,
        },
{
    if !success {
        return None;
    }
    let text = trim_str(stdout);
    if text.unicode_len() == 0 || eq_ignore_ascii_case(text.as_str(), "missing value") {
        return None;
    }
    Some(text)
}

} // verus!
