use nchan::markup::{doctype, escape_text, int_string};

/// Reads escaped text back the way a browser does.
fn decode(s: &str) -> String {
    s.replace("&lt;", "<")
        .replace("&gt;", ">")
        .replace("&quot;", "\"")
        .replace("&amp;", "&")
}

#[test]
fn escape_script_tags() {
    assert_eq!(
        escape_text("<script>launchMissiles()</script>"),
        "&lt;script&gt;launchMissiles()&lt;/script&gt;"
    );
}

#[test]
fn escape_ampersand_and_quotes() {
    assert_eq!(escape_text("a & \"b\""), "a &amp; &quot;b&quot;");
}

#[test]
fn escape_keeps_plain_text() {
    assert_eq!(escape_text("plain text, don't worry"), "plain text, don't worry");
    assert_eq!(escape_text(""), "");
}

#[test]
fn escape_keeps_non_ascii() {
    assert_eq!(escape_text("héllo <ü>"), "héllo &lt;ü&gt;");
}

#[test]
fn escaped_text_holds_no_markup_characters() {
    let nasty = "\"><img src=x onerror=alert(1)>&<<>>\"\"";
    let e = escape_text(nasty);
    assert!(!e.contains('<'));
    assert!(!e.contains('>'));
    assert!(!e.contains('"'));
}

#[test]
fn escaped_text_reads_back_as_posted() {
    for s in ["a&amp;b", "<b>bold</b>", "\"quoted\" & 'single'", "&lt;", "plain"] {
        assert_eq!(decode(&escape_text(s)), s);
    }
}

#[test]
fn escape_is_injective_on_entity_lookalikes() {
    assert_ne!(escape_text("&lt;"), escape_text("<"));
    assert_eq!(escape_text("&lt;"), "&amp;lt;");
}

#[test]
fn integers_in_decimal() {
    assert_eq!(int_string(0), "0");
    assert_eq!(int_string(7), "7");
    assert_eq!(int_string(42), "42");
    assert_eq!(int_string(1700000000), "1700000000");
    assert_eq!(int_string(-7), "-7");
    assert_eq!(int_string(-10), "-10");
    assert_eq!(int_string(i64::MAX), "9223372036854775807");
    assert_eq!(int_string(i64::MIN), "-9223372036854775808");
}

#[test]
fn document_type_line() {
    assert_eq!(doctype(), "<!DOCTYPE html>");
}
