use vstd::prelude::*;
use crate::digits::{decimal, decimal_string};
use crate::events::{appended_one, record, Level, LogEvent};
use crate::render::{markdown_html, render_markdown};
use crate::theme::{wrap_html, wrapped};
use crate::validate::{mib_text, size_in_mib_text, validate_size, SOFT_LIMIT_BYTES};

verus! {

/// A request to convert Markdown `content`, optionally under a named theme.
#[derive(Debug)]
pub struct ConversionRequest {
    pub content: String,
    pub theme: Option<String>,
}

/// The answer to a conversion: the HTML, and an error text when the content was
/// refused (the HTML then reports the error).
#[derive(Debug)]
pub struct ConversionResponse {
    pub html: String,
    pub error: Option<String>,
}

/// The liveness report of the service.
#[derive(Debug)]
pub struct HealthStatus {
    pub status: String,
    pub service: String,
}

/// The byte length of the UTF-8 encoding of `s`.
pub open spec fn byte_len(s: Seq<char>) -> nat {
    vstd::utf8::encode_utf8(s).len()
}

/// The theme named in log messages: the given one, or `default`.
pub open spec fn resolved_theme(theme: Option<Seq<char>>) -> Seq<char> {
    match theme {
        Some(t) => t,
        None => "default"@,
    }
}

/// The error text of a refused conversion.
pub open spec fn too_large_error() -> Seq<char> {
    "File too large"@
}

/// The HTML fragment that reports content of `len` bytes as too large.
pub open spec fn too_large_html(len: nat) -> Seq<char> {
    "<div class='error'><p style='color: red; font-weight: bold;'>Error: File too large ("@
        + mib_text(len) + "MB). Maximum size is 15MB.</p></div>"@
}

/// The log message of a refused conversion of `len` bytes.
pub open spec fn too_large_message(len: nat) -> Seq<char> {
    "File too large: "@ + decimal(len) + " bytes (max 15MB)"@
}

/// The log message of a conversion of `len` bytes that starts under `theme`.
pub open spec fn started_message(len: nat, theme: Seq<char>) -> Seq<char> {
    "Markdown conversion started - Length: "@ + decimal(len) + " chars, Theme: "@ + theme
}

/// The log message of a finished conversion.
pub open spec fn completed_message(
    input_len: nat,
    output_len: nat,
    millis: nat,
    theme: Seq<char>,
) -> Seq<char> {
    "Markdown conversion completed - Input: "@ + decimal(input_len) + " chars, Output: "@
        + decimal(output_len) + " chars, Time: "@ + decimal(millis) + "ms, Theme: "@ + theme
}

/// The log message of a health check.
pub open spec fn health_message() -> Seq<char> {
    "Health check requested"@
}

/// The HTML answered for `content` under `theme` when it is within the limit.
pub open spec fn converted_html(content: Seq<char>, theme: Option<Seq<char>>) -> Seq<char> {
    wrapped(markdown_html(content), theme)
}

/// The theme named in log messages for `theme`.
pub fn theme_label(theme: &Option<String>) -> (r: &str)
    ensures
        r@ == resolved_theme(theme.deep_view()),
{
    match theme {
        Some(t) => t.as_str(),
        None => "default",
    }
}

/// Converts `req.content` to themed HTML and records the start of the work in
/// `log`; content over the soft limit is refused with an in-band error instead,
/// and the refusal is recorded.
pub fn convert(req: &ConversionRequest, log: &mut Vec<LogEvent>) -> (r: ConversionResponse)
    ensures
        byte_len(req.content@) <= SOFT_LIMIT_BYTES ==> {
            &&& r.error is None
            &&& r.html@ == converted_html(req.content@, req.theme.deep_view())
            &&& appended_one(
                old(log)@,
                final(log)@,
                Level::Info,
                started_message(byte_len(req.content@), resolved_theme(req.theme.deep_view())),
            )
        },
        byte_len(req.content@) > SOFT_LIMIT_BYTES ==> {
            &&& r.error matches Some(e) && e@ == too_large_error()
            &&& r.html@ == too_large_html(byte_len(req.content@))
            &&& appended_one(
                old(log)@,
                final(log)@,
                Level::Error,
                too_large_message(byte_len(req.content@)),
            )
        },
{
    let len: u64 = req.content.as_str().as_bytes().len() as u64;
    match validate_size(len) {
        Err(_) => {
            let mut message = String::from_str("File too large: ");
            message.append(decimal_string(len).as_str());
            message.append(" bytes (max 15MB)");
            record(log, Level::Error, message);
            let mut html = String::from_str(
                "<div class='error'><p style='color: red; font-weight: bold;'>Error: File too large (",
            );
            html.append(size_in_mib_text(len).as_str());
            html.append("MB). Maximum size is 15MB.</p></div>");
            ConversionResponse { html, error: Some(String::from_str("File too large")) }
        },
        Ok(()) => {
            let theme = theme_label(&req.theme);
            let mut message = String::from_str("Markdown conversion started - Length: ");
            message.append(decimal_string(len).as_str());
            message.append(" chars, Theme: ");
            message.append(theme);
            record(log, Level::Info, message);
            let rendered = render_markdown(req.content.as_str());
            let html = match &req.theme {
                Some(t) => wrap_html(rendered.as_str(), Some(t.as_str())),
                None => wrap_html(rendered.as_str(), None),
            };
            ConversionResponse { html, error: None }
        },
    }
}

/// Records the completion of a conversion that `convert` answered with
/// `response`, after `millis` milliseconds; a refused conversion records nothing.
pub fn record_completion(
    req: &ConversionRequest,
    response: &ConversionResponse,
    millis: u64,
    log: &mut Vec<LogEvent>,
)
    ensures
        response.error is None ==> appended_one(
            old(log)@,
            final(log)@,
            Level::Info,
            completed_message(
                byte_len(req.content@),
                byte_len(response.html@),
                millis as nat,
                resolved_theme(req.theme.deep_view()),
            ),
        ),
        response.error is Some ==> final(log)@ == old(log)@,
{
    if response.error.is_none() {
        let mut message = String::from_str("Markdown conversion completed - Input: ");
        message.append(decimal_string(req.content.as_str().as_bytes().len() as u64).as_str());
        message.append(" chars, Output: ");
        message.append(decimal_string(response.html.as_str().as_bytes().len() as u64).as_str());
        message.append(" chars, Time: ");
        message.append(decimal_string(millis).as_str());
        message.append("ms, Theme: ");
        message.append(theme_label(&req.theme));
        record(log, Level::Info, message);
    }
}

/// The liveness report, which depends on nothing; the check is recorded in `log`.
pub fn health(log: &mut Vec<LogEvent>) -> (r: HealthStatus)
    ensures
        r.status@ == "healthy"@,
        r.service@ == "markdown-preview-backend"@,
        appended_one(old(log)@, final(log)@, Level::Info, health_message()),
{
    record(log, Level::Info, String::from_str("Health check requested"));
    HealthStatus {
        status: String::from_str("healthy"),
        service: String::from_str("markdown-preview-backend"),
    }
}

} // verus!

verus! {

/// Converting the same content under the same theme twice gives the same HTML,
/// whether the content is rendered or refused.
pub proof fn lemma_conversion_idempotent(first: &ConversionRequest, second: &ConversionRequest)
    requires
        first.content@ == second.content@,
        first.theme.deep_view() == second.theme.deep_view(),
    ensures
        converted_html(first.content@, first.theme.deep_view()) == converted_html(
            second.content@,
            second.theme.deep_view(),
        ),
        too_large_html(byte_len(first.content@)) == too_large_html(byte_len(second.content@)),
{
}

} // verus!
