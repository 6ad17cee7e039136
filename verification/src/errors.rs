use vstd::prelude::*;

verus! {

/// Why one URL's rendering failed. Such failures are isolated: each yields
/// one diagnostic line and the run continues with the next URL.
#[derive(Clone, Debug)]
pub enum RenderError {
    /// The static renderer's network retrieval failed: connection, timeout,
    /// or a non-success status. The string carries the transport detail.
    Network(String),
    /// The dynamic renderer's browser work failed: launch, navigation
    /// dispatch, or content extraction. The string carries the detail.
    Browser(String),
}

impl RenderError {
    /// The detail text carried with the failure.
    pub open spec fn spec_detail(&self) -> Seq<char> {
        match self {
            RenderError::Network(m) => m@,
            RenderError::Browser(m) => m@,
        }
    }

    /// The detail text, for building a diagnostic line.
    pub fn detail(&self) -> (r: String)
        ensures
            r@ == self.spec_detail(),
    {
        match self {
            RenderError::Network(m) => m.clone(),
            RenderError::Browser(m) => m.clone(),
        }
    }
}

} // verus!
