use vstd::prelude::*;

verus! {

/// How a page's HTML is obtained: `Static` issues one plain network request
/// and takes the body as-is; `Dynamic` drives a headless browser that runs
/// the page's scripts first and serialises the resulting DOM.
#[derive(Clone, Copy, PartialEq, Eq, Structural, Debug)]
pub enum RenderMode {
    Static,
    Dynamic,
}

/// The command line selects the mode with one word: `http` for static
/// retrieval, `chrome` for browser rendering. Any other word is refused,
/// and the run is rejected before any discovery work begins.
pub fn parse_mode(arg: &String) -> (r: Option<RenderMode>)
    ensures
        arg@ == "http"@ ==> r == Some(RenderMode::Static),
        arg@ == "chrome"@ ==> r == Some(RenderMode::Dynamic),
        arg@ != "http"@ && arg@ != "chrome"@ ==> r is None,
{
    proof {
        reveal_strlit("http");
        reveal_strlit("chrome");
        assert("http"@.len() == 4);
        assert("chrome"@.len() == 6);
        assert("http"@ != "chrome"@);
    }
    let http: String = "http".to_owned();
    let chrome: String = "chrome".to_owned();
    if *arg == http {
        Some(RenderMode::Static)
    } else if *arg == chrome {
        Some(RenderMode::Dynamic)
    } else {
        None
    }
}

} // verus!
