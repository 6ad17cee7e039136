use sitemark::mode::parse_mode;
use sitemark::mode::RenderMode;

#[test]
fn mode_http_selects_static() {
    assert_eq!(parse_mode(&String::from("http")), Some(RenderMode::Static));
}

#[test]
fn mode_chrome_selects_dynamic() {
    assert_eq!(parse_mode(&String::from("chrome")), Some(RenderMode::Dynamic));
}

#[test]
fn mode_other_words_are_refused() {
    assert_eq!(parse_mode(&String::from("ftp")), None);
    assert_eq!(parse_mode(&String::from("")), None);
    assert_eq!(parse_mode(&String::from("HTTP")), None);
    assert_eq!(parse_mode(&String::from("chromium")), None);
}
