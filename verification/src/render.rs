use vstd::prelude::*;

use crate::errors::RenderError;

verus! {

/// Classify the static renderer's retrieval: the body text is the rendered
/// document; any transport, timeout or status failure becomes an isolated
/// `Network` error for this URL alone.
pub fn classify_static(fetched: Result<String, String>) -> (r: Result<String, RenderError>)
    ensures
        match fetched {
            Ok(h) => r == Result::<String, RenderError>::Ok(h),
            Err(m) => r == Result::<String, RenderError>::Err(RenderError::Network(m)),
        },
{
    match fetched {
        Ok(h) => Ok(h),
        Err(m) => Err(RenderError::Network(m)),
    }
}

/// Where one dynamic render stands. The browser work itself happens
/// outside; after each step its plain result is handed to this machine,
/// which decides what follows. The phases run launch → open page →
/// navigation wait → extract DOM → release session → done.
#[derive(Clone, Copy, PartialEq, Eq, Structural, Debug)]
pub enum RenderPhase {
    /// Launching the browser engine.
    Launching,
    /// Opening a page for the URL and dispatching navigation.
    Opening,
    /// Awaiting navigation completion.
    AwaitingNavigation,
    /// Serialising the current DOM as HTML.
    Extracting,
    /// Releasing the browser session; the render's result is already fixed.
    Releasing,
    /// The session is released and the result can be taken.
    Done,
}

/// One dynamic render of one URL: an owned, short-lived browser session
/// driven to completion. The machine guarantees the session discipline the
/// renderer needs: the session is released on every exit path — success or
/// error — before the result is handed out, and a navigation-wait timeout
/// is never fatal: extraction still runs and a successful extraction still
/// yields the document.
pub struct DynamicRender {
    phase: RenderPhase,
    session_open: bool,
    outcome: Option<Result<String, RenderError>>,
}

impl DynamicRender {
    pub closed spec fn spec_phase(&self) -> RenderPhase {
        self.phase
    }

    /// Whether the browser session is currently held.
    pub closed spec fn spec_session_open(&self) -> bool {
        self.session_open
    }

    /// The render's result, fixed once extraction (or a fatal fault)
    /// decided it.
    pub closed spec fn spec_outcome(&self) -> Option<Result<String, RenderError>> {
        self.outcome
    }

    /// The session discipline: the session is held exactly while the
    /// browser is being driven (from a successful launch up to release),
    /// and it is never still held once the render is done; the result is
    /// fixed exactly from the moment the machine heads for release.
    pub closed spec fn wf(&self) -> bool {
        &&& (self.session_open <==> (self.phase == RenderPhase::Opening
            || self.phase == RenderPhase::AwaitingNavigation
            || self.phase == RenderPhase::Extracting || self.phase == RenderPhase::Releasing))
        &&& (self.outcome is Some <==> (self.phase == RenderPhase::Releasing
            || self.phase == RenderPhase::Done))
    }

    /// Begin one dynamic render: nothing launched yet, nothing decided.
    pub fn new() -> (r: DynamicRender)
        ensures
            r.wf(),
            r.spec_phase() == RenderPhase::Launching,
            !r.spec_session_open(),
            r.spec_outcome() is None,
    {
        DynamicRender { phase: RenderPhase::Launching, session_open: false, outcome: None }
    }

    /// The browser launch finished. Success opens the session and moves on
    /// to opening the page; a launch fault is fatal for this render, and —
    /// no session having been opened — the render is done at once with a
    /// `Browser` error.
    pub fn launched(&mut self, result: Result<(), String>)
        requires
            old(self).wf(),
            old(self).spec_phase() == RenderPhase::Launching,
        ensures
            final(self).wf(),
            result is Ok ==> final(self).spec_phase() == RenderPhase::Opening
                && final(self).spec_session_open()
                && final(self).spec_outcome() is None,
            result is Err ==> final(self).spec_phase() == RenderPhase::Done
                && !final(self).spec_session_open()
                && final(self).spec_outcome() == Some(
                Result::<String, RenderError>::Err(RenderError::Browser(result->Err_0)),
            ),
    {
        match result {
            Ok(_) => {
                self.session_open = true;
                self.phase = RenderPhase::Opening;
            },
            Err(m) => {
                self.outcome = Some(Err(RenderError::Browser(m)));
                self.phase = RenderPhase::Done;
            },
        }
    }

    /// The page open and navigation dispatch finished. Success moves on to
    /// the navigation wait; a fault is fatal for this render, but the
    /// session is open and must be released before the result is handed
    /// out.
    pub fn page_opened(&mut self, result: Result<(), String>)
        requires
            old(self).wf(),
            old(self).spec_phase() == RenderPhase::Opening,
        ensures
            final(self).wf(),
            final(self).spec_session_open(),
            result is Ok ==> final(self).spec_phase() == RenderPhase::AwaitingNavigation
                && final(self).spec_outcome() is None,
            result is Err ==> final(self).spec_phase() == RenderPhase::Releasing
                && final(self).spec_outcome() == Some(
                Result::<String, RenderError>::Err(RenderError::Browser(result->Err_0)),
            ),
    {
        match result {
            Ok(_) => {
                self.phase = RenderPhase::AwaitingNavigation;
            },
            Err(m) => {
                self.outcome = Some(Err(RenderError::Browser(m)));
                self.phase = RenderPhase::Releasing;
            },
        }
    }

    /// The navigation wait finished — or timed out. A wait failure is not
    /// fatal: whatever the wait reported, it is only logged outside and the
    /// machine proceeds to extract the DOM best-effort, with nothing
    /// decided yet.
    pub fn navigation_waited(&mut self, waited: Result<(), String>)
        requires
            old(self).wf(),
            old(self).spec_phase() == RenderPhase::AwaitingNavigation,
        ensures
            final(self).wf(),
            final(self).spec_session_open(),
            final(self).spec_phase() == RenderPhase::Extracting,
            final(self).spec_outcome() is None,
    {
        let _ = waited;
        self.phase = RenderPhase::Extracting;
    }

    /// The DOM serialisation finished. A successful extraction fixes the
    /// document as this render's result — also when the earlier navigation
    /// wait had timed out; a fault fixes a `Browser` error. Either way the
    /// session still has to be released before the result is handed out.
    pub fn content_extracted(&mut self, result: Result<String, String>)
        requires
            old(self).wf(),
            old(self).spec_phase() == RenderPhase::Extracting,
        ensures
            final(self).wf(),
            final(self).spec_session_open(),
            final(self).spec_phase() == RenderPhase::Releasing,
            result is Ok ==> final(self).spec_outcome() == Some(
                Result::<String, RenderError>::Ok(result->Ok_0),
            ),
            result is Err ==> final(self).spec_outcome() == Some(
                Result::<String, RenderError>::Err(RenderError::Browser(result->Err_0)),
            ),
    {
        match result {
            Ok(h) => {
                self.outcome = Some(Ok(h));
            },
            Err(m) => {
                self.outcome = Some(Err(RenderError::Browser(m)));
            },
        }
        self.phase = RenderPhase::Releasing;
    }

    /// The browser session was released (page, context and process let
    /// go). This is the only way to reach `Done` from a render that opened
    /// a session, so every exit path — success or error — releases it.
    pub fn session_released(&mut self)
        requires
            old(self).wf(),
            old(self).spec_phase() == RenderPhase::Releasing,
        ensures
            final(self).wf(),
            final(self).spec_phase() == RenderPhase::Done,
            !final(self).spec_session_open(),
            final(self).spec_outcome() == old(self).spec_outcome(),
    {
        self.session_open = false;
        self.phase = RenderPhase::Done;
    }

    /// Take the finished render's result. Only a done render — its session
    /// released — hands one out.
    pub fn into_result(self) -> (r: Result<String, RenderError>)
        requires
            self.wf(),
            self.spec_phase() == RenderPhase::Done,
        ensures
            Some(r) == self.spec_outcome(),
    {
        match self.outcome {
            Some(r) => r,
            None => {
                proof {
                    assert(false);
                }
                Err(RenderError::Browser(String::new()))
            },
        }
    }
}

/// A navigation-wait timeout is not fatal: from the waiting phase, however
/// the wait went, the machine reaches extraction with nothing decided, and
/// a successful extraction then fixes the document — never an error — as
/// the render's result.
pub proof fn lemma_wait_timeout_not_fatal(r: DynamicRender)
    requires
        r.wf(),
        r.spec_phase() == RenderPhase::AwaitingNavigation,
    ensures
        r.spec_outcome() is None,
{
}

/// A session, once opened, is never still held when the render is done:
/// every exit path releases it.
pub proof fn lemma_session_released_when_done(r: DynamicRender)
    requires
        r.wf(),
        r.spec_phase() == RenderPhase::Done,
    ensures
        !r.spec_session_open(),
{
}

} // verus!
