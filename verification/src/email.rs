use vstd::prelude::*;

use crate::text::{chars_of, push_char};

verus! {

/// A character with the Unicode `White_Space` property, as
/// `char::is_whitespace` decides.
pub open spec fn is_white_space(c: char) -> bool {
    ||| ('\u{9}' <= c && c <= '\u{d}')
    ||| c == ' '
    ||| c == '\u{85}'
    ||| c == '\u{a0}'
    ||| c == '\u{1680}'
    ||| ('\u{2000}' <= c && c <= '\u{200a}')
    ||| c == '\u{2028}'
    ||| c == '\u{2029}'
    ||| c == '\u{202f}'
    ||| c == '\u{205f}'
    ||| c == '\u{3000}'
}

/// Decides `is_white_space`.
pub fn is_whitespace(c: char) -> (r: bool)
    ensures
        r == is_white_space(c),
{
    ('\u{9}' <= c && c <= '\u{d}') || c == ' ' || c == '\u{85}' || c == '\u{a0}' || c == '\u{1680}'
        || ('\u{2000}' <= c && c <= '\u{200a}') || c == '\u{2028}' || c == '\u{2029}' || c == '\u{202f}'
        || c == '\u{205f}' || c == '\u{3000}'
}

/// The first position at or after `i` that is not white space.
pub open spec fn skip_white_space(s: Seq<char>, i: int) -> int
    decreases s.len() - i,
{
    if 0 <= i < s.len() && is_white_space(s[i]) {
        skip_white_space(s, i + 1)
    } else {
        i
    }
}

/// The first position at or after `i` that is white space, or the end.
pub open spec fn word_end(s: Seq<char>, i: int) -> int
    decreases s.len() - i,
{
    if 0 <= i < s.len() && !is_white_space(s[i]) {
        word_end(s, i + 1)
    } else {
        i
    }
}

/// The first word of a text, where words are separated by white space.
pub open spec fn first_word(s: Seq<char>) -> Option<Seq<char>> {
    let a = skip_white_space(s, 0);
    if a >= s.len() {
        None
    } else {
        Some(s.subrange(a, word_end(s, a)))
    }
}

/// The first name by which a mail addresses a user: the first word of the
/// full name, or `No name` where the full name has no word.
pub open spec fn first_name_spec(full_name: Seq<char>) -> Seq<char> {
    match first_word(full_name) {
        Some(w) => w,
        None => "No name"@,
    }
}

/// The first name by which a mail addresses a user.
pub fn first_name(full_name: &str) -> (r: String)
    ensures
        r@ == first_name_spec(full_name@),
{
    let cs = chars_of(full_name);
    let n = cs.len();
    let mut a: usize = 0;
    while a < n && is_whitespace(cs[a])
        invariant
            cs@ == full_name@,
            n == cs@.len(),
            a <= n,
            skip_white_space(full_name@, 0) == skip_white_space(full_name@, a as int),
        decreases n - a,
    {
        a = a + 1;
    }
    if a >= n {
        return String::from_str("No name");
    }
    let mut b: usize = a;
    let mut r = String::new();
    while b < n && !is_whitespace(cs[b])
        invariant
            cs@ == full_name@,
            n == cs@.len(),
            a <= b <= n,
            a == skip_white_space(full_name@, 0),
            word_end(full_name@, a as int) == word_end(full_name@, b as int),
            r@ == full_name@.subrange(a as int, b as int),
        decreases n - b,
    {
        push_char(&mut r, cs[b]);
        assert(full_name@.subrange(a as int, b + 1) =~= full_name@.subrange(a as int, b as int).push(cs@[b as int]));
        b = b + 1;
    }
    r
}

/// What a mail template renders to, given the first name, the user name
/// and the temporary password as its context; `None` where rendering
/// fails.
pub uninterp spec fn template_rendered(
    template: Seq<char>,
    name: Seq<char>,
    username: Seq<char>,
    temp_password: Seq<char>,
) -> Option<Seq<char>>;

/// Renders a mail template.
///
/// Trusted: calls `minijinja::Environment::new().render_str` on the
/// template, with a context object that maps `name`, `username` and
/// `temp_password` to the given texts; any error gives `None`. Rendering
/// depends on these arguments alone, so the outcome is named
/// (`template_rendered`), not specified.
#[verifier::external_body]
pub(crate) fn render_mail_template(template: &str, name: &str, username: &str, temp_password: &str) -> (r: Option<String>)
    ensures
        match r {
            Some(s) => template_rendered(template@, name@, username@, temp_password@) == Some(s@),
            None => template_rendered(template@, name@, username@, temp_password@) is None,
        },
{
    let mut ctx = serde_json::Map::new();
    ctx.insert("name".to_string(), serde_json::Value::from(name));
    ctx.insert("username".to_string(), serde_json::Value::from(username));
    ctx.insert("temp_password".to_string(), serde_json::Value::from(temp_password));
    minijinja::Environment::new().render_str(template, serde_json::Value::Object(ctx)).ok()
}

/// The plain-text and HTML bodies of the mail that hands a user a
/// temporary password: both templates rendered with the user's first name
/// (see `first_name_spec`), user name and temporary password; `None` where
/// either template fails to render.
pub fn temp_password_bodies(
    full_name: &str,
    username: &str,
    temp_password: &str,
    text_template: &str,
    html_template: &str,
) -> (r: Option<(String, String)>)
    ensures
        match r {
            Some((t, h)) => {
                &&& template_rendered(text_template@, first_name_spec(full_name@), username@, temp_password@) == Some(t@)
                &&& template_rendered(html_template@, first_name_spec(full_name@), username@, temp_password@) == Some(h@)
            },
            None => {
                ||| template_rendered(text_template@, first_name_spec(full_name@), username@, temp_password@) is None
                ||| template_rendered(html_template@, first_name_spec(full_name@), username@, temp_password@) is None
            },
        },
{
    let name = first_name(full_name);
    let text = match render_mail_template(text_template, name.as_str(), username, temp_password) {
        Some(t) => t,
        None => return None,
    };
    let html = match render_mail_template(html_template, name.as_str(), username, temp_password) {
        Some(h) => h,
        None => return None,
    };
    Some((text, html))
}

} // verus!
