use sitemark::convert::convert;
use sitemark::errors::RenderError;
use sitemark::pipeline::diagnostic_line;
use sitemark::pipeline::process_page;
use sitemark::pipeline::run_batch;
use sitemark::pipeline::PageResult;

#[test]
fn diagnostic_line_has_exact_text() {
    let e = RenderError::Network(String::from("connection refused"));
    assert_eq!(diagnostic_line(&e), "Error at fetching URL: connection refused");
    let e = RenderError::Browser(String::from("no engine"));
    assert_eq!(diagnostic_line(&e), "Error at fetching URL: no engine");
}

#[test]
fn process_page_converts_rendered_html() {
    let outcome: Result<String, RenderError> = Ok(String::from("<p>hello</p>"));
    match process_page(&outcome) {
        PageResult::Document(md) => assert_eq!(md, "hello"),
        PageResult::Failure(_) => panic!("a rendered page must yield a document"),
    }
}

#[test]
fn process_page_isolates_a_failure() {
    let outcome: Result<String, RenderError> = Err(RenderError::Network(String::from("timeout")));
    match process_page(&outcome) {
        PageResult::Document(_) => panic!("a failed rendering must yield a diagnostic"),
        PageResult::Failure(line) => assert_eq!(line, "Error at fetching URL: timeout"),
    }
}

#[test]
fn batch_emits_one_outcome_per_url_in_order() {
    // Three discovered URLs where the second one's static rendering fails:
    // two documents and one diagnostic, in the order A, (error), C.
    let outcomes: Vec<Result<String, RenderError>> = vec![
        Ok(String::from("<p>page A</p>")),
        Err(RenderError::Network(String::from("status 500"))),
        Ok(String::from("<p>page C</p>")),
    ];
    let results = run_batch(&outcomes);
    assert_eq!(results.len(), 3);
    match &results[0] {
        PageResult::Document(md) => assert_eq!(md, "page A"),
        PageResult::Failure(_) => panic!("first URL rendered fine"),
    }
    match &results[1] {
        PageResult::Document(_) => panic!("second URL failed"),
        PageResult::Failure(line) => assert_eq!(line, "Error at fetching URL: status 500"),
    }
    match &results[2] {
        PageResult::Document(md) => assert_eq!(md, "page C"),
        PageResult::Failure(_) => panic!("third URL rendered fine"),
    }
    let documents = results.iter().filter(|r| matches!(r, PageResult::Document(_))).count();
    let failures = results.iter().filter(|r| matches!(r, PageResult::Failure(_))).count();
    assert_eq!(documents, 2);
    assert_eq!(failures, 1);
    assert_eq!(documents + failures, outcomes.len());
}

#[test]
fn batch_of_nothing_yields_nothing() {
    let outcomes: Vec<Result<String, RenderError>> = vec![];
    let results = run_batch(&outcomes);
    assert_eq!(results.len(), 0);
}

#[test]
fn page_result_text_is_what_gets_emitted() {
    let outcome: Result<String, RenderError> = Ok(String::from("<h1>Title</h1>"));
    let r = process_page(&outcome);
    assert_eq!(r.text(), &convert(&String::from("<h1>Title</h1>")));
}
