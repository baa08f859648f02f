use vstd::prelude::*;

verus! {

/// Whether `c` has to be written as an entity inside an HTML attribute value.
pub open spec fn is_html_special(c: char) -> bool {
    c == '&' || c == '<' || c == '>' || c == '"' || c == '\''
}

/// How character `c` is written inside an HTML attribute value.
pub open spec fn escape_char(c: char) -> Seq<char> {
    if c == '&' {
        "&amp;"@
    } else if c == '<' {
        "&lt;"@
    } else if c == '>' {
        "&gt;"@
    } else if c == '"' {
        "&quot;"@
    } else if c == '\'' {
        "&#39;"@
    } else {
        seq![c]
    }
}

/// Text `s` with each character written as `escape_char` says.
pub open spec fn escape_attr(s: Seq<char>) -> Seq<char>
    decreases s.len(),
{
    if s.len() == 0 {
        Seq::empty()
    } else {
        escape_attr(s.drop_last()) + escape_char(s.last())
    }
}

/// The rendered `html` inside its container element: the class is
/// `markdown-content`, with `theme-` and the escaped theme after it when a theme
/// is given.
pub open spec fn wrapped(html: Seq<char>, theme: Option<Seq<char>>) -> Seq<char> {
    match theme {
        Some(t) => "<div class=\"markdown-content theme-"@ + escape_attr(t) + "\">"@ + html + "</div>"@,
        None => "<div class=\"markdown-content\">"@ + html + "</div>"@,
    }
}

/// Appends `c` to `s`.
/// Relies on `String::push`, which appends one character.
#[verifier::external_body]
fn push_char(s: &mut String, c: char)
    ensures
        final(s)@ == old(s)@.push(c),
{
    s.push(c)
}

/// Appends the escaped form of `c` to `s`.
fn append_escaped_char(s: &mut String, c: char)
    ensures
        final(s)@ == old(s)@ + escape_char(c),
{
    if c == '&' {
        s.append("&amp;");
    } else if c == '<' {
        s.append("&lt;");
    } else if c == '>' {
        s.append("&gt;");
    } else if c == '"' {
        s.append("&quot;");
    } else if c == '\'' {
        s.append("&#39;");
    } else {
        push_char(s, c);
        assert(s@ =~= old(s)@ + seq![c]);
    }
}

/// `text` with the characters `&`, `<`, `>`, `"` and `'` written as entities,
/// so that it can stand inside a quoted HTML attribute value.
pub fn escape_attribute(text: &str) -> (r: String)
    ensures
        r@ == escape_attr(text@),
{
    let mut out = String::new();
    for c in it: text.chars()
        invariant
            it.seq() == text@,
            out@ == escape_attr(text@.take(it.index() as int)),
    {
        append_escaped_char(&mut out, c);
        proof {
            let k = it.index() as int;
            let next = text@.take(k + 1);
            assert(next.drop_last() =~= text@.take(k));
            assert(next.last() == c);
        }
    }
    assert(text@.take(text@.len() as int) =~= text@);
    out
}

/// The rendered `html` inside its container element, tagged with `theme` when
/// one is given.
pub fn wrap_html(html: &str, theme: Option<&str>) -> (r: String)
    ensures
        r@ == wrapped(html@, theme.deep_view()),
{
    match theme {
        Some(t) => {
            let mut out = String::from_str("<div class=\"markdown-content theme-");
            let escaped = escape_attribute(t);
            out.append(escaped.as_str());
            out.append("\">");
            out.append(html);
            out.append("</div>");
            out
        },
        None => {
            let mut out = String::from_str("<div class=\"markdown-content\">");
            out.append(html);
            out.append("</div>");
            out
        },
    }
}

} // verus!

verus! {

/// The opening tag of the container element for `theme`.
pub open spec fn container_open(theme: Option<Seq<char>>) -> Seq<char> {
    match theme {
        Some(t) => "<div class=\"markdown-content theme-"@ + escape_attr(t) + "\">"@,
        None => "<div class=\"markdown-content\">"@,
    }
}

/// Whether `s` holds no HTML-special character.
pub open spec fn is_plain_text(s: Seq<char>) -> bool {
    forall|i: int| 0 <= i < s.len() ==> !is_html_special(#[trigger] s[i])
}

/// Text without HTML-special characters is written unchanged.
pub proof fn lemma_escape_plain(s: Seq<char>)
    requires
        is_plain_text(s),
    ensures
        escape_attr(s) == s,
    decreases s.len(),
{
    if s.len() > 0 {
        let init = s.drop_last();
        assert forall|i: int| 0 <= i < init.len() implies !is_html_special(#[trigger] init[i]) by {
            assert(init[i] == s[i]);
        }
        lemma_escape_plain(init);
        assert(!is_html_special(s[s.len() - 1]));
        assert(init.push(s.last()) =~= s);
        assert(escape_char(s.last()) =~= seq![s.last()]);
    }
}

/// Wrapped HTML is exactly one container element around the rendered HTML; its
/// class starts with `markdown-content`, and with a theme that has no
/// HTML-special characters it is `markdown-content theme-<theme>`.
pub proof fn lemma_single_container(html: Seq<char>, theme: Option<Seq<char>>)
    ensures
        wrapped(html, theme) == container_open(theme) + html + "</div>"@,
        container_open(theme).take(28) == "<div class=\"markdown-content"@,
        theme is Some && is_plain_text(theme->0) ==> container_open(theme)
            == "<div class=\"markdown-content theme-"@ + theme->0 + "\">"@,
{
    reveal_strlit("<div class=\"markdown-content theme-");
    reveal_strlit("<div class=\"markdown-content\">");
    reveal_strlit("<div class=\"markdown-content");
    assert(wrapped(html, theme) =~= container_open(theme) + html + "</div>"@);
    match theme {
        Some(t) => {
            assert(container_open(theme).take(28) =~= "<div class=\"markdown-content"@);
            if is_plain_text(t) {
                lemma_escape_plain(t);
            }
        },
        None => {
            assert(container_open(theme).take(28) =~= "<div class=\"markdown-content"@);
        },
    }
}

/// Leaving the theme out gives a container without a theme class, which differs
/// from the container for the theme named `default`.
pub proof fn lemma_absent_theme_is_not_default(html: Seq<char>)
    ensures
        wrapped(html, None) == "<div class=\"markdown-content\">"@ + html + "</div>"@,
        wrapped(html, Some("default"@)) == "<div class=\"markdown-content theme-default\">"@
            + html + "</div>"@,
        wrapped(html, None) != wrapped(html, Some("default"@)),
{
    reveal_strlit("default");
    reveal_strlit("<div class=\"markdown-content theme-");
    reveal_strlit("<div class=\"markdown-content theme-default\">");
    reveal_strlit("<div class=\"markdown-content\">");
    reveal_strlit("\">");
    lemma_escape_plain("default"@);
    let plain = wrapped(html, None);
    let named = wrapped(html, Some("default"@));
    assert(named =~= "<div class=\"markdown-content theme-default\">"@ + html + "</div>"@);
    assert(plain[28] == '"');
    assert(named[28] == ' ');
}

} // verus!
