use markdown_preview::events::Level;
use markdown_preview::handler::{
    convert, health, record_completion, theme_label, ConversionRequest,
};
use markdown_preview::theme::{escape_attribute, wrap_html};

fn request(content: &str, theme: Option<&str>) -> ConversionRequest {
    ConversionRequest {
        content: content.to_string(),
        theme: theme.map(|t| t.to_string()),
    }
}

#[test]
fn heading_without_theme() {
    let mut log = Vec::new();
    let r = convert(&request("# Hello", None), &mut log);
    assert_eq!(r.html, "<div class=\"markdown-content\"><h1>Hello</h1>\n</div>");
    assert!(r.error.is_none());
    assert_eq!(log.len(), 1);
    assert_eq!(log[0].level, Level::Info);
    assert_eq!(
        log[0].message,
        "Markdown conversion started - Length: 7 chars, Theme: default"
    );
}

#[test]
fn heading_with_theme() {
    let mut log = Vec::new();
    let r = convert(&request("# Hello", Some("dark")), &mut log);
    assert_eq!(
        r.html,
        "<div class=\"markdown-content theme-dark\"><h1>Hello</h1>\n</div>"
    );
    assert!(r.error.is_none());
    assert_eq!(
        log[0].message,
        "Markdown conversion started - Length: 7 chars, Theme: dark"
    );
}

#[test]
fn oversized_dark_request_reports_size() {
    let content = "a".repeat(16_000_000);
    let mut log = Vec::new();
    let r = convert(&request(&content, Some("dark")), &mut log);
    assert_eq!(r.error.as_deref(), Some("File too large"));
    assert!(r.html.contains("File too large"));
    assert!(r.html.contains("15.3MB"));
    assert_eq!(
        r.html,
        "<div class='error'><p style='color: red; font-weight: bold;'>Error: File too large (15.3MB). Maximum size is 15MB.</p></div>"
    );
    assert_eq!(log.len(), 1);
    assert_eq!(log[0].level, Level::Error);
    assert_eq!(log[0].message, "File too large: 16000000 bytes (max 15MB)");
}

#[test]
fn content_at_soft_limit_is_rendered() {
    let content = "a".repeat(15 * 1024 * 1024);
    let mut log = Vec::new();
    let r = convert(&request(&content, None), &mut log);
    assert!(r.error.is_none());
    assert!(r.html.starts_with("<div class=\"markdown-content\"><p>aaa"));
    assert!(r.html.ends_with("</p>\n</div>"));
}

#[test]
fn content_one_byte_over_soft_limit_is_refused() {
    let content = "a".repeat(15 * 1024 * 1024 + 1);
    let mut log = Vec::new();
    let r = convert(&request(&content, None), &mut log);
    assert_eq!(r.error.as_deref(), Some("File too large"));
    assert!(r.html.contains("(15.0MB)"));
}

#[test]
fn size_limit_counts_bytes_not_characters() {
    // Each 'é' is two bytes in UTF-8.
    let content = "é".repeat(8 * 1024 * 1024);
    let mut log = Vec::new();
    let r = convert(&request(&content, None), &mut log);
    assert_eq!(r.error.as_deref(), Some("File too large"));
    assert!(r.html.contains("(16.0MB)"));
}

#[test]
fn empty_content_gives_empty_container() {
    let mut log = Vec::new();
    let r = convert(&request("", None), &mut log);
    assert_eq!(r.html, "<div class=\"markdown-content\"></div>");
    assert!(r.error.is_none());
}

#[test]
fn same_request_twice_gives_identical_html() {
    let md = "| a | b |\n|---|---|\n| 1 | 2 |\n\n~~gone~~ [^1]\n\n[^1]: note\n\n- [x] done\n";
    let mut log = Vec::new();
    let first = convert(&request(md, Some("light")), &mut log);
    let second = convert(&request(md, Some("light")), &mut log);
    assert_eq!(first.html, second.html);
    assert!(first.html.contains("<table>"));
    assert!(first.html.contains("<del>gone</del>"));
    assert!(first.html.contains("checkbox"));
}

#[test]
fn absent_theme_differs_from_default_theme() {
    let mut log = Vec::new();
    let none = convert(&request("text", None), &mut log);
    let named = convert(&request("text", Some("default")), &mut log);
    assert_eq!(none.html, "<div class=\"markdown-content\"><p>text</p>\n</div>");
    assert_eq!(
        named.html,
        "<div class=\"markdown-content theme-default\"><p>text</p>\n</div>"
    );
    assert_ne!(none.html, named.html);
}

#[test]
fn theme_is_escaped_in_class_attribute() {
    let mut log = Vec::new();
    let r = convert(&request("x", Some("a\"><script>&'")), &mut log);
    assert_eq!(
        r.html,
        "<div class=\"markdown-content theme-a&quot;&gt;&lt;script&gt;&amp;&#39;\"><p>x</p>\n</div>"
    );
    assert_eq!(escape_attribute("plain-theme"), "plain-theme");
    assert_eq!(escape_attribute(""), "");
}

#[test]
fn wrap_html_places_fragment_inside_container() {
    assert_eq!(
        wrap_html("<p>x</p>", Some("sepia")),
        "<div class=\"markdown-content theme-sepia\"><p>x</p></div>"
    );
    assert_eq!(wrap_html("", None), "<div class=\"markdown-content\"></div>");
}

#[test]
fn completion_is_recorded_after_success_only() {
    let mut log = Vec::new();
    let req = request("# Hello", None);
    let ok = convert(&req, &mut log);
    record_completion(&req, &ok, 12, &mut log);
    assert_eq!(log.len(), 2);
    assert_eq!(log[1].level, Level::Info);
    assert_eq!(
        log[1].message,
        "Markdown conversion completed - Input: 7 chars, Output: 51 chars, Time: 12ms, Theme: default"
    );

    let big = request(&"b".repeat(15 * 1024 * 1024 + 10), Some("dark"));
    let mut log2 = Vec::new();
    let refused = convert(&big, &mut log2);
    record_completion(&big, &refused, 3, &mut log2);
    assert_eq!(log2.len(), 1);
    assert_eq!(log2[0].level, Level::Error);
}

#[test]
fn health_is_always_healthy() {
    let mut log = Vec::new();
    let _ = convert(&request(&"c".repeat(16_000_000), None), &mut log);
    let first = health(&mut log);
    let second = health(&mut log);
    for h in [first, second] {
        assert_eq!(h.status, "healthy");
        assert_eq!(h.service, "markdown-preview-backend");
    }
    assert_eq!(log.len(), 3);
    assert_eq!(log[2].level, Level::Info);
    assert_eq!(log[2].message, "Health check requested");
}

#[test]
fn theme_label_defaults() {
    assert_eq!(theme_label(&None), "default");
    assert_eq!(theme_label(&Some("dark".to_string())), "dark");
}
