use rustpress::html::{apply_site_template, escape_html, iframe_srcdoc, normalize_builtin_template_html};
use rustpress::text::{contains_str, ends_with, replace, starts_with, trim};

#[test]
fn escape_html_replaces_the_five_special_characters() {
    assert_eq!(
        escape_html("<a href=\"x\">Tom & Jerry's</a>"),
        "&lt;a href=&quot;x&quot;&gt;Tom &amp; Jerry&#39;s&lt;/a&gt;"
    );
}

#[test]
fn escape_html_keeps_plain_text() {
    assert_eq!(escape_html("plain text 123"), "plain text 123");
    assert_eq!(escape_html(""), "");
    assert_eq!(escape_html("žluťoučký kůň"), "žluťoučký kůň");
}

#[test]
fn escape_html_of_a_concatenation_is_the_concatenation_of_escapes() {
    let a = "<b>";
    let b = "&'\"";
    let joined = format!("{a}{b}");
    assert_eq!(escape_html(&joined), format!("{}{}", escape_html(a), escape_html(b)));
}

#[test]
fn escaped_text_holds_no_markup_characters() {
    let out = escape_html("<script>alert('x')</script> \"q\"");
    assert!(!out.contains('<'));
    assert!(!out.contains('>'));
    assert!(!out.contains('"'));
    assert!(!out.contains('\''));
}

#[test]
fn iframe_srcdoc_wraps_escaped_html() {
    assert_eq!(
        iframe_srcdoc("<p class=\"a\">x</p>"),
        "<iframe class=\"preview-iframe\" sandbox=\"allow-same-origin\" referrerpolicy=\"no-referrer\" srcdoc=\"&lt;p class=&quot;a&quot;&gt;x&lt;/p&gt;\"></iframe>"
    );
}

#[test]
fn srcdoc_value_cannot_be_closed_early() {
    let out = iframe_srcdoc("\"><script>x</script>");
    let prefix = "<iframe class=\"preview-iframe\" sandbox=\"allow-same-origin\" referrerpolicy=\"no-referrer\" srcdoc=\"";
    let inner = &out[prefix.len()..out.len() - "\"></iframe>".len()];
    assert!(!inner.contains('"'));
}

#[test]
fn normalize_turns_escaped_newlines_and_tabs_into_characters() {
    assert_eq!(normalize_builtin_template_html("a\\nb\\tc"), "a\nb\tc");
}

#[test]
fn normalize_leaves_html_without_escapes_unchanged() {
    let html = "<html>\n<body>x</body></html>";
    assert_eq!(normalize_builtin_template_html(html), html);
}

#[test]
fn apply_site_template_fills_all_placeholders() {
    let tpl = "<title>{{title}}</title><h1>{{ title }}</h1><a href=\"/{{slug}}\">{{ slug }}</a><span>{{kind}} {{ kind }}</span><main>{{content}}|{{ content }}</main>";
    let out = apply_site_template(tpl, "A & B", "<p>Hi</p>", "a-b", "post");
    assert_eq!(
        out,
        "<title>A &amp; B</title><h1>A &amp; B</h1><a href=\"/a-b\">a-b</a><span>post post</span><main><p>Hi</p>|<p>Hi</p></main>"
    );
}

#[test]
fn apply_site_template_escapes_title_but_not_content() {
    let out = apply_site_template("{{title}}/{{content}}", "<i>", "<i>", "s", "page");
    assert_eq!(out, "&lt;i&gt;/<i>");
}

#[test]
fn template_without_placeholders_is_returned_unchanged() {
    let tpl = "<html><body>static</body></html>";
    assert_eq!(apply_site_template(tpl, "t", "c", "s", "k"), tpl);
}

#[test]
fn trim_removes_unicode_whitespace_at_both_ends() {
    assert_eq!(trim("  \t hello world \n"), "hello world");
    assert_eq!(trim("\u{3000}x\u{3000}"), "x");
    assert_eq!(trim("   "), "");
}

#[test]
fn replace_scans_from_the_left_without_overlaps() {
    assert_eq!(replace("aaaa", "aa", "b"), "bb");
    assert_eq!(replace("abcabc", "bc", "X"), "aXaX");
    assert_eq!(replace("none", "zz", "y"), "none");
}

#[test]
fn prefix_suffix_and_substring_tests() {
    assert!(starts_with("/admin/users", "/admin"));
    assert!(!starts_with("/adm", "/admin"));
    assert!(ends_with("x@deleted.local", "@deleted.local"));
    assert!(contains_str("hello world", "lo wo"));
    assert!(contains_str("abc", ""));
    assert!(!contains_str("abc", "abcd"));
}

#[test]
fn normalizing_twice_changes_nothing() {
    let once = normalize_builtin_template_html("x\\\\ny\\\\tz\\n\\t");
    assert_eq!(once, "x\\\ny\\\tz\n\t");
    assert_eq!(normalize_builtin_template_html(&once), once);
}
