use sitemark::errors::RenderError;
use sitemark::render::classify_static;
use sitemark::render::DynamicRender;

#[test]
fn static_body_is_the_document() {
    let r = classify_static(Ok(String::from("<p>body</p>")));
    match r {
        Ok(h) => assert_eq!(h, "<p>body</p>"),
        Err(_) => panic!("a retrieved body is a rendered document"),
    }
}

#[test]
fn static_transport_failure_is_a_network_error() {
    let r = classify_static(Err(String::from("connection reset")));
    match r {
        Ok(_) => panic!("a transport failure is no document"),
        Err(RenderError::Network(m)) => assert_eq!(m, "connection reset"),
        Err(RenderError::Browser(_)) => panic!("the static path never raises a browser error"),
    }
}

#[test]
fn dynamic_happy_path_yields_the_dom() {
    let mut r = DynamicRender::new();
    r.launched(Ok(()));
    r.page_opened(Ok(()));
    r.navigation_waited(Ok(()));
    r.content_extracted(Ok(String::from("<html><body>rendered</body></html>")));
    r.session_released();
    match r.into_result() {
        Ok(h) => assert_eq!(h, "<html><body>rendered</body></html>"),
        Err(_) => panic!("a successful render yields the DOM"),
    }
}

#[test]
fn navigation_timeout_is_not_fatal() {
    // The navigation wait times out, but the DOM is still extractable:
    // the render must yield the non-empty document, not an error.
    let mut r = DynamicRender::new();
    r.launched(Ok(()));
    r.page_opened(Ok(()));
    r.navigation_waited(Err(String::from("navigation wait timed out")));
    r.content_extracted(Ok(String::from("<html><body>late but here</body></html>")));
    r.session_released();
    match r.into_result() {
        Ok(h) => {
            assert!(!h.is_empty());
            assert_eq!(h, "<html><body>late but here</body></html>");
        },
        Err(_) => panic!("a wait timeout must not turn an extractable DOM into an error"),
    }
}

#[test]
fn launch_failure_is_a_browser_error() {
    let mut r = DynamicRender::new();
    r.launched(Err(String::from("engine unavailable")));
    match r.into_result() {
        Ok(_) => panic!("a failed launch renders nothing"),
        Err(RenderError::Browser(m)) => assert_eq!(m, "engine unavailable"),
        Err(RenderError::Network(_)) => panic!("the dynamic path never raises a network error"),
    }
}

#[test]
fn extraction_failure_still_releases_the_session() {
    let mut r = DynamicRender::new();
    r.launched(Ok(()));
    r.page_opened(Ok(()));
    r.navigation_waited(Ok(()));
    r.content_extracted(Err(String::from("page crashed")));
    r.session_released();
    match r.into_result() {
        Ok(_) => panic!("a failed extraction yields no document"),
        Err(RenderError::Browser(m)) => assert_eq!(m, "page crashed"),
        Err(RenderError::Network(_)) => panic!("the dynamic path never raises a network error"),
    }
}

#[test]
fn page_open_failure_is_isolated() {
    let mut r = DynamicRender::new();
    r.launched(Ok(()));
    r.page_opened(Err(String::from("tab closed")));
    r.session_released();
    match r.into_result() {
        Ok(_) => panic!("a failed page open renders nothing"),
        Err(RenderError::Browser(m)) => assert_eq!(m, "tab closed"),
        Err(RenderError::Network(_)) => panic!("the dynamic path never raises a network error"),
    }
}
