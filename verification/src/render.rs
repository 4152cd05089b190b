//! HTML rendering: the full page shell, the entry-submission form fragment,
//! and the transient flash notices shown after a submission.
//!
//! Each renderer is pure and its output is pinned exactly by a spec function
//! built from the same markup. Flash notices carry attributes that make the
//! client replace them with the empty `/empty` response after a delay, so no
//! server-side session state is needed.

use vstd::prelude::*;
use vstd::string::StringExecFns;

use crate::text::dec_digits;
use crate::text::escape_spec;
use crate::text::html_escape;
use crate::text::u64_to_string;

verus! {

/// The document head and opening of the body: meta tags, title, script and
/// stylesheet references, and the one inline style rule.
pub open spec fn shell_head() -> Seq<char> {
    "<!DOCTYPE html><head><meta charset=\"UTF-8\"><meta name=\"viewport\" content=\"width=device-width, initial-scale=1\"><title>journal</title><script src=\"https://cdn.jsdelivr.net/npm/htmx.org@2.0.6/dist/htmx.min.js\" integrity=\"sha384-Akqfrbj/HpNVo8k11SXBb6TlBWmXXlYQrCSqEWmyKJe+hDm3Z/B2WVG4smwBkRVm\" crossorigin=\"anonymous\"></script><link rel=\"stylesheet\" href=\"https://cdn.jsdelivr.net/npm/bulma@1.0.4/css/bulma.min.css\"><style>pre { white-space: pre-wrap; }</style></head><body>"@
}

pub open spec fn shell_tail() -> Seq<char> {
    "</body>"@
}

/// A full document wrapping an already-rendered content fragment.
pub open spec fn shell_html(content: Seq<char>) -> Seq<char> {
    shell_head() + content + shell_tail()
}

/// The form fragment up to the point where a flash notice is inserted:
/// the section and form elements and the empty multi-line text input.
pub open spec fn form_head() -> Seq<char> {
    "<section id=\"main\" class=\"section\"><div class=\"container\"><form id=\"entry-input-form\" hx-post=\"/entry\" hx-target=\"#main\" hx-swap=\"outerHTML\"><div class=\"field\"><div class=\"control\"><textarea class=\"textarea\" name=\"body\" rows=\"10\"></textarea></div></div>"@
}

/// The rest of the form fragment: the submit control and closing tags.
pub open spec fn form_tail() -> Seq<char> {
    "<div class=\"field-body\"><div class=\"field is-grouped\"><div class=\"control\"><button type=\"submit\" class=\"button is-link\">Submit</button></div></div></div></form></div></section>"@
}

/// The entry form, with an optional flash notice between the text input and
/// the submit control.
pub open spec fn form_html(flash: Option<Seq<char>>) -> Seq<char> {
    form_head() + (match flash {
        Option::Some(f) => f,
        Option::None => Seq::empty(),
    }) + form_tail()
}

/// The opening of a flash notice, styled for success or error, with the
/// attributes that make the client clear it after a five-second delay.
pub open spec fn flash_head(success: bool) -> Seq<char> {
    "<div class=\"field\"><p class=\"help "@ + (if success {
        "is-success"@
    } else {
        "is-danger"@
    })
        + "\" hx-get=\"/empty\" hx-trigger=\"load delay:5s\" hx-target=\"this\" hx-swap=\"outerHTML\">"@
}

/// A complete flash notice holding the given (already escaped) text.
pub open spec fn flash_html(success: bool, text: Seq<char>) -> Seq<char> {
    flash_head(success) + text + "</p></div>"@
}

/// The text of a success notice for an entry of `count` characters.
pub open spec fn success_text(count: int) -> Seq<char> {
    "Created. Length: "@ + dec_digits(count) + " chars."@
}

/// The view of an optional fragment handed in from outside.
pub open spec fn view_opt(flash: Option<&str>) -> Option<Seq<char>> {
    match flash {
        Option::Some(f) => Option::Some(f@),
        Option::None => Option::None,
    }
}

/// Renders the success notice after a stored entry of `count` characters.
pub fn render_flash_success(count: u64) -> (r: String)
    ensures
        r@ == flash_html(true, success_text(count as int)),
{
    let mut r = String::from_str("<div class=\"field\"><p class=\"help ");
    r.append("is-success");
    r.append(
        "\" hx-get=\"/empty\" hx-trigger=\"load delay:5s\" hx-target=\"this\" hx-swap=\"outerHTML\">",
    );
    r.append("Created. Length: ");
    let digits = u64_to_string(count);
    r.append(digits.as_str());
    r.append(" chars.");
    r.append("</p></div>");
    proof {
        assert(r@ =~= flash_html(true, success_text(count as int)));
    }
    r
}

/// Renders the error notice for a storage failure, escaping the raw message.
pub fn render_flash_error(message: &str) -> (r: String)
    ensures
        r@ == flash_html(false, escape_spec(message@)),
{
    let mut r = String::from_str("<div class=\"field\"><p class=\"help ");
    r.append("is-danger");
    r.append(
        "\" hx-get=\"/empty\" hx-trigger=\"load delay:5s\" hx-target=\"this\" hx-swap=\"outerHTML\">",
    );
    let escaped = html_escape(message);
    r.append(escaped.as_str());
    r.append("</p></div>");
    proof {
        assert(r@ =~= flash_html(false, escape_spec(message@)));
    }
    r
}

/// Renders the entry form, inserting the given flash fragment if one is
/// supplied.
pub fn render_form(flash: Option<&str>) -> (r: String)
    ensures
        r@ == form_html(view_opt(flash)),
{
    let mut r = String::from_str(
        "<section id=\"main\" class=\"section\"><div class=\"container\"><form id=\"entry-input-form\" hx-post=\"/entry\" hx-target=\"#main\" hx-swap=\"outerHTML\"><div class=\"field\"><div class=\"control\"><textarea class=\"textarea\" name=\"body\" rows=\"10\"></textarea></div></div>",
    );
    match flash {
        Option::Some(f) => r.append(f),
        Option::None => (),
    }
    r.append(
        "<div class=\"field-body\"><div class=\"field is-grouped\"><div class=\"control\"><button type=\"submit\" class=\"button is-link\">Submit</button></div></div></div></form></div></section>",
    );
    proof {
        assert(r@ =~= form_html(view_opt(flash)));
    }
    r
}

/// Wraps an already-rendered content fragment in the full document shell.
pub fn render_shell(content: &str) -> (r: String)
    ensures
        r@ == shell_html(content@),
{
    let mut r = String::from_str(
        "<!DOCTYPE html><head><meta charset=\"UTF-8\"><meta name=\"viewport\" content=\"width=device-width, initial-scale=1\"><title>journal</title><script src=\"https://cdn.jsdelivr.net/npm/htmx.org@2.0.6/dist/htmx.min.js\" integrity=\"sha384-Akqfrbj/HpNVo8k11SXBb6TlBWmXXlYQrCSqEWmyKJe+hDm3Z/B2WVG4smwBkRVm\" crossorigin=\"anonymous\"></script><link rel=\"stylesheet\" href=\"https://cdn.jsdelivr.net/npm/bulma@1.0.4/css/bulma.min.css\"><style>pre { white-space: pre-wrap; }</style></head><body>",
    );
    r.append(content);
    r.append("</body>");
    proof {
        assert(r@ =~= shell_html(content@));
    }
    r
}

/// Renders the full index page: the shell around an empty form with no
/// flash region.
pub fn render_index() -> (r: String)
    ensures
        r@ == shell_html(form_html(Option::None)),
{
    let form = render_form(Option::None);
    render_shell(form.as_str())
}

/// Renders the body of the flash-clearing route: the empty string.
pub fn render_empty() -> (r: String)
    ensures
        r@ == Seq::<char>::empty(),
{
    String::new()
}

/// Renders the response to an entry submission: the form fragment again,
/// with a success notice carrying the stored character count, or an error
/// notice carrying the storage error message verbatim (escaped for HTML).
pub fn render_entry_response(outcome: Result<u64, String>) -> (r: String)
    ensures
        outcome matches Ok(n) ==> r@ == form_html(
            Option::Some(flash_html(true, success_text(n as int))),
        ),
        outcome matches Err(m) ==> r@ == form_html(
            Option::Some(flash_html(false, escape_spec(m@))),
        ),
{
    let flash = match outcome {
        Result::Ok(n) => render_flash_success(n),
        Result::Err(m) => render_flash_error(m.as_str()),
    };
    render_form(Option::Some(flash.as_str()))
}

} // verus!
