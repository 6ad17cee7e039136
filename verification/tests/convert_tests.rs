use sitemark::convert::convert;

#[test]
fn convert_is_deterministic() {
    let html = String::from("<h1>Title</h1><p>Some <b>bold</b> text</p>");
    let first = convert(&html);
    let second = convert(&html);
    assert_eq!(first, second);
}

#[test]
fn convert_strips_paragraph_markup() {
    let html = String::from("<p>hello</p>");
    let md = convert(&html);
    assert_eq!(md, "hello");
}

#[test]
fn convert_renders_top_level_header() {
    let html = String::from("<h1>Title</h1>");
    let md = convert(&html);
    assert_eq!(md, "Title\n==========");
}

#[test]
fn convert_empty_input_is_empty() {
    let html = String::new();
    let md = convert(&html);
    assert_eq!(md, "");
}

#[test]
fn convert_malformed_html_is_best_effort() {
    let html = String::from("<div<p>>unclosed <b>bold");
    let first = convert(&html);
    let second = convert(&html);
    assert_eq!(first, second);
}
