use journal::render::render_empty;
use journal::render::render_entry_response;
use journal::render::render_flash_error;
use journal::render::render_flash_success;
use journal::render::render_form;
use journal::render::render_index;
use journal::render::render_shell;

#[test]
fn index_page_has_empty_textarea_and_no_flash() {
    let page = render_index();
    assert!(page.starts_with("<!DOCTYPE html>"));
    assert!(page.contains("<textarea class=\"textarea\" name=\"body\" rows=\"10\"></textarea>"));
    assert!(!page.contains("is-success"));
    assert!(!page.contains("is-danger"));
}

#[test]
fn form_without_flash_has_no_notice() {
    let form = render_form(None);
    assert!(form.contains("<textarea class=\"textarea\" name=\"body\" rows=\"10\"></textarea>"));
    assert!(!form.contains("help"));
}

#[test]
fn form_inserts_flash_between_input_and_submit() {
    let form = render_form(Some("<p>notice</p>"));
    let textarea = form.find("</textarea>").unwrap();
    let notice = form.find("<p>notice</p>").unwrap();
    let submit = form.find("Submit").unwrap();
    assert!(textarea < notice);
    assert!(notice < submit);
}

#[test]
fn success_flash_reads_character_count() {
    let flash = render_flash_success(11);
    assert!(flash.contains("Created. Length: 11 chars."));
    assert!(flash.contains("is-success"));
    assert!(flash.contains("hx-get=\"/empty\""));
    assert!(flash.contains("load delay:5s"));
}

#[test]
fn error_flash_carries_escaped_message() {
    let flash = render_flash_error("a < b & \"c\"");
    assert!(flash.contains("is-danger"));
    assert!(flash.contains("a &lt; b &amp; &quot;c&quot;"));
    assert!(flash.contains("hx-get=\"/empty\""));
}

#[test]
fn shell_wraps_content() {
    let page = render_shell("<p>x</p>");
    assert!(page.starts_with("<!DOCTYPE html>"));
    assert!(page.ends_with("</body>"));
    assert!(page.contains("<p>x</p>"));
}

#[test]
fn empty_route_body_is_empty() {
    assert_eq!(render_empty(), "");
}

#[test]
fn entry_response_success_contains_notice_and_form() {
    let r = render_entry_response(Ok(11));
    assert!(r.contains("Created. Length: 11 chars."));
    assert!(r.contains("is-success"));
    assert!(r.contains("entry-input-form"));
}

#[test]
fn entry_response_error_contains_escaped_message() {
    let r = render_entry_response(Err(String::from("boom <oops>")));
    assert!(r.contains("is-danger"));
    assert!(r.contains("boom &lt;oops&gt;"));
}
