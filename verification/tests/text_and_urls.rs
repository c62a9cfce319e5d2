use erp_tracker::active_window::{
    current_platform, display_name, infer_url, sanitized_from_snapshot, snapshot,
    ActiveWindowSnapshot, Os,
};
use erp_tracker::browser_url::{
    browser_url_script, classify, norm, script_output_url, tab_url_script, BrowserKind,
};
use erp_tracker::text::{
    contains, eq_ignore_ascii_case, i64_to_decimal, replace, split_str, starts_with, str_eq,
    to_ascii_lowercase, trim_end_set, trim_start_matches, trim_str, u64_to_decimal, SplitSet,
    TrimSet,
};
use erp_tracker::url_sanitize::{sanitize_parts, sanitize_url};

#[test]
fn trim_matches_std() {
    for s in ["  hi  ", "\u{3000}x\u{a0}", "", "   ", "a b", "\t\nx\r\n"] {
        assert_eq!(trim_str(s), s.trim());
    }
}

#[test]
fn trim_end_punct() {
    assert_eq!(trim_end_set("http://a.com),;", TrimSet::UrlPunct), "http://a.com");
    assert_eq!(trim_end_set("a//", TrimSet::Slash), "a");
}

#[test]
fn searching() {
    assert!(contains("google chrome", "chrome"));
    assert!(!contains("chrom", "chrome"));
    assert!(contains("abc", ""));
    assert!(starts_with("https://x", "https://"));
    assert!(!starts_with("http", "https://"));
    assert!(str_eq("safari", "safari"));
    assert!(!str_eq("safari", "safar"));
}

#[test]
fn replacing_and_case() {
    assert_eq!(replace("safari.app.app", ".app", ""), "safari");
    assert_eq!(replace("aaaa", "aa", "b"), "bb");
    assert_eq!(to_ascii_lowercase("Not AUTHORIZED É"), "not authorized É");
    assert!(eq_ignore_ascii_case("Missing Value", "missing value"));
    assert!(!eq_ignore_ascii_case("missing values", "missing value"));
}

#[test]
fn numbers() {
    assert_eq!(u64_to_decimal(0), "0");
    assert_eq!(u64_to_decimal(1234567890), "1234567890");
    assert_eq!(u64_to_decimal(u64::MAX), u64::MAX.to_string());
    assert_eq!(i64_to_decimal(-42), "-42");
    assert_eq!(i64_to_decimal(i64::MIN), i64::MIN.to_string());
}

#[test]
fn prefixes_and_split() {
    assert_eq!(trim_start_matches("https://https://x", "https://"), "x");
    assert_eq!(split_str("a;;b", SplitSet::Semicolon), vec!["a", "", "b"]);
    assert_eq!(split_str("", SplitSet::Semicolon), vec![""]);
    assert_eq!(
        split_str("x - y|z", SplitSet::TitleWords),
        vec!["x", "-", "y", "z"]
    );
}

#[test]
fn sanitize_keeps_host_only() {
    let s = sanitize_url(Some("  https://www.example.com/path?q=1 ")).unwrap();
    assert_eq!(s.url, "example.com");
    assert_eq!(s.domain, "example.com");
    let s = sanitize_url(Some("http://sub.example.org:8080/x")).unwrap();
    assert_eq!(s.domain, "sub.example.org");
}

#[test]
fn sanitize_rejects() {
    assert!(sanitize_url(None).is_none());
    assert!(sanitize_url(Some("   ")).is_none());
    assert!(sanitize_url(Some("ftp://example.com")).is_none());
    assert!(sanitize_url(Some("not a url")).is_none());
    assert!(sanitize_url(Some("mailto:a@b.c")).is_none());
}

#[test]
fn sanitize_parts_rules() {
    assert!(sanitize_parts("http", Some("www.")).is_none());
    assert_eq!(sanitize_parts("https", Some("www.www.x")).unwrap().domain, "www.x");
    assert!(sanitize_parts("https", None).is_none());
}

#[test]
fn platform_names() {
    assert_eq!(current_platform(Os::MacOs), "macos");
    assert_eq!(current_platform(Os::Windows), "windows");
    assert_eq!(current_platform(Os::Other), "linux");
}

#[test]
fn infer_url_from_titles() {
    assert_eq!(
        infer_url("Docs — https://example.com/a, more").as_deref(),
        Some("https://example.com/a")
    );
    assert_eq!(
        infer_url("Visit www.rust-lang.org) now").as_deref(),
        Some("https://www.rust-lang.org")
    );
    assert_eq!(infer_url("see (www.a.b]").as_deref(), None);
    assert_eq!(infer_url("http://x.y|https://z").as_deref(), Some("http://x.y"));
    assert_eq!(
        infer_url("Blog \u{2014} https://my-site.com/post").as_deref(),
        Some("https://my-site.com/post")
    );
    assert_eq!(infer_url("Docs-https://x.com").as_deref(), Some("https://x.com"));
    assert_eq!(infer_url("rust-lang www.a-b.org").as_deref(), Some("https://www.a-b.org"));
    assert_eq!(infer_url("no address here"), None);
    assert_eq!(infer_url(""), None);
}

#[test]
fn window_names_and_snapshots() {
    assert_eq!(display_name("  Finder ", "finder"), Some("Finder".to_string()));
    assert_eq!(display_name("  ", "code"), Some("code".to_string()));
    assert_eq!(display_name(" ", ""), None);
    let snap = snapshot("Safari".into(), "Safari".into(), "  Title  ", None);
    assert_eq!(snap.title, "Title");
    assert_eq!(snap.raw_url, None);
    let snap = snapshot("X".into(), "x".into(), "Read https://a.io/b", None);
    assert_eq!(snap.raw_url.as_deref(), Some("https://a.io/b"));
    let snap = snapshot("X".into(), "x".into(), "Read https://a.io/b", Some("https://c.io".into()));
    assert_eq!(snap.raw_url.as_deref(), Some("https://c.io"));
}

#[test]
fn sanitized_snapshot_pair() {
    let snap = ActiveWindowSnapshot {
        app: "Chrome".into(),
        exec_name: "chrome".into(),
        title: "t".into(),
        raw_url: Some("https://www.github.com/x".into()),
    };
    let (u, d) = sanitized_from_snapshot(&snap);
    assert_eq!(u.as_deref(), Some("github.com"));
    assert_eq!(d.as_deref(), Some("github.com"));
    let snap = ActiveWindowSnapshot { raw_url: None, ..snap };
    assert_eq!(sanitized_from_snapshot(&snap), (None, None));
}

#[test]
fn browsers_are_classified() {
    assert_eq!(norm("Safari.app"), "safari");
    assert_eq!(classify("Safari", ""), Some(BrowserKind::SafariLike("Safari")));
    assert_eq!(classify("Orion", "x"), Some(BrowserKind::SafariLike("Orion")));
    assert_eq!(classify("Google Chrome", "Google Chrome"), Some(BrowserKind::ChromeLike("Google Chrome")));
    assert_eq!(classify("Chromium", ""), Some(BrowserKind::ChromeLike("Chromium")));
    assert_eq!(classify("Brave Browser", ""), Some(BrowserKind::ChromeLike("Brave Browser")));
    assert_eq!(classify("x", "msedge"), Some(BrowserKind::ChromeLike("Microsoft Edge")));
    assert_eq!(classify("Arc", ""), Some(BrowserKind::ChromeLike("Arc")));
    assert_eq!(classify("Vivaldi", ""), Some(BrowserKind::ChromeLike("Vivaldi")));
    assert_eq!(classify("Opera GX", ""), Some(BrowserKind::ChromeLike("Opera")));
    assert_eq!(classify("Dia", ""), Some(BrowserKind::ChromeLike("Dia")));
    assert_eq!(classify("Finder", "Finder"), None);
}

#[test]
fn browser_scripts() {
    assert_eq!(
        tab_url_script(BrowserKind::SafariLike("Safari")),
        "tell application \"Safari\" to get URL of current tab of front window"
    );
    assert_eq!(
        browser_url_script("Brave Browser", "", Os::MacOs).as_deref(),
        Some("tell application \"Brave Browser\" to get URL of active tab of front window")
    );
    assert_eq!(browser_url_script("Safari", "", Os::Windows), None);
    assert_eq!(browser_url_script("Finder", "", Os::MacOs), None);
}

#[test]
fn script_outputs() {
    assert_eq!(script_output_url(true, " https://a.b \n").as_deref(), Some("https://a.b"));
    assert_eq!(script_output_url(true, "Missing Value"), None);
    assert_eq!(script_output_url(true, "  "), None);
    assert_eq!(script_output_url(false, "https://a.b"), None);
}
