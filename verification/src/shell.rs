//! The application shell: the event-dispatch decisions of the event loop.

use vstd::prelude::*;

verus! {

use crate::render::{InitError, InitReport, State};
use crate::surface::selected_format_spec;

/// The window events the shell distinguishes. A size change is reported with
/// the new drawable size; every event the shell does not react to, resizing
/// included, falls under the same ignored case.
#[derive(Clone, Copy, Debug, PartialEq, Eq, Structural)]
pub enum WindowEvent {
    CloseRequested,
    RedrawRequested,
    Resized { width: u32, height: u32 },
    Other,
}

/// What the shell asks its platform layer to do in response to one event.
#[derive(Clone, Copy, Debug, PartialEq, Eq, Structural)]
pub enum Action {
    /// Stop the event loop; nothing further is rendered or requested.
    Exit,
    /// Render and present exactly one frame, then request the next redraw.
    RenderAndRequestRedraw,
    /// Request a redraw without rendering; issued once after activation.
    RequestRedraw,
    /// Do nothing.
    Ignore,
}

/// One observable platform side effect of carrying an action out.
#[derive(Clone, Copy, Debug, PartialEq, Eq, Structural)]
pub enum Effect {
    /// Submit the recorded frame and present the surface texture, once.
    SubmitAndPresent,
    /// Ask the platform to deliver another redraw event.
    RequestRedraw,
    /// Terminate the event loop.
    ExitLoop,
}

/// The side effects an action performs, in the order the platform layer
/// carries them out.
pub open spec fn effects_spec(a: Action) -> Seq<Effect> {
    match a {
        Action::Exit => seq![Effect::ExitLoop],
        Action::RenderAndRequestRedraw => seq![Effect::SubmitAndPresent, Effect::RequestRedraw],
        Action::RequestRedraw => seq![Effect::RequestRedraw],
        Action::Ignore => Seq::<Effect>::empty(),
    }
}

pub fn effects_of(a: Action) -> (r: Vec<Effect>)
    ensures
        r@ == effects_spec(a),
{
    let mut r: Vec<Effect> = Vec::new();
    match a {
        Action::Exit => {
            r.push(Effect::ExitLoop);
        },
        Action::RenderAndRequestRedraw => {
            r.push(Effect::SubmitAndPresent);
            r.push(Effect::RequestRedraw);
        },
        Action::RequestRedraw => {
            r.push(Effect::RequestRedraw);
        },
        Action::Ignore => {},
    }
    proof {
        assert(r@ =~= effects_spec(a));
    }
    r
}

/// The application shell: no render state before the first activation, a
/// complete one thereafter.
pub struct App {
    pub state: Option<State>,
}

impl App {
    pub open spec fn initialized(self) -> bool {
        self.state is Some
    }

    /// Whenever a render state is present, it is complete: no partially
    /// initialized state is ever exposed to the event handler.
    pub open spec fn inv(self) -> bool {
        self.state matches Some(s) ==> s.wf()
    }

    /// A fresh shell, created before the event loop starts: no render state.
    pub fn new() -> (a: App)
        ensures
            a.state is None,
            !a.initialized(),
            a.inv(),
    {
        App { state: None }
    }

    /// Which action one window event demands: close stops the loop, a redraw
    /// renders one frame and asks for the next, everything else is ignored —
    /// in particular, a resize leaves the surface configuration as it was.
    pub open spec fn dispatch(self, event: WindowEvent) -> Action {
        match event {
            WindowEvent::CloseRequested => Action::Exit,
            WindowEvent::RedrawRequested => Action::RenderAndRequestRedraw,
            WindowEvent::Resized { .. } => Action::Ignore,
            WindowEvent::Other => Action::Ignore,
        }
    }

    /// Handle one window event. The shell presumes activation has already
    /// populated the render state and fails fatally otherwise, so an
    /// initialized shell is required here.
    pub fn window_event(&self, event: WindowEvent) -> (a: Action)
        requires
            self.initialized(),
        ensures
            a == self.dispatch(event),
    {
        match event {
            WindowEvent::CloseRequested => Action::Exit,
            WindowEvent::RedrawRequested => Action::RenderAndRequestRedraw,
            WindowEvent::Resized { .. } => Action::Ignore,
            WindowEvent::Other => Action::Ignore,
        }
    }

    /// What activation does to the shell: a complete report installs the
    /// freshly built render state and asks for the first redraw; an
    /// incomplete one leaves the shell untouched and reports the error of
    /// the first refused setup step.
    pub open spec fn resumed_spec(self, report: InitReport) -> (App, Result<Action, InitError>) {
        match State::new_spec(report) {
            Ok(s) => (App { state: Some(s) }, Ok(Action::RequestRedraw)),
            Err(e) => (self, Err(e)),
        }
    }

    /// On activation: given the plain outcomes of the platform setup steps,
    /// install the render state and ask for the first redraw — or refuse and
    /// leave the shell exactly as it was.
    pub fn resumed(&mut self, report: InitReport) -> (r: Result<Action, InitError>)
        ensures
            (*final(self), r) == old(self).resumed_spec(report),
            r is Ok <==> report.complete(),
            report.complete() ==> r == Ok::<Action, InitError>(Action::RequestRedraw)
                && final(self).initialized(),
            !report.complete() ==> *final(self) == *old(self),
            old(self).inv() ==> final(self).inv(),
    {
        match State::new(report) {
            Ok(s) => {
                self.state = Some(s);
                Ok(Action::RequestRedraw)
            },
            Err(e) => Err(e),
        }
    }
}

/// Once window-close is signalled, the shell's whole answer is to stop the
/// event loop: it presents nothing and requests no further redraw.
pub proof fn lemma_close_stops_the_loop(app: App)
    ensures
        app.dispatch(WindowEvent::CloseRequested) == Action::Exit,
        effects_spec(app.dispatch(WindowEvent::CloseRequested)) =~= seq![Effect::ExitLoop],
        forall|i: int|
            0 <= i < effects_spec(app.dispatch(WindowEvent::CloseRequested)).len()
                ==> effects_spec(app.dispatch(WindowEvent::CloseRequested))[i]
                != Effect::RequestRedraw && effects_spec(app.dispatch(WindowEvent::CloseRequested))[i]
                != Effect::SubmitAndPresent,
{
}

/// Every redraw request is answered by exactly one submit-and-present, and
/// that present completes before the next redraw is requested: no frame is
/// skipped and none is submitted twice.
pub proof fn lemma_redraw_presents_once_then_requests(app: App)
    ensures
        app.dispatch(WindowEvent::RedrawRequested) == Action::RenderAndRequestRedraw,
        effects_spec(app.dispatch(WindowEvent::RedrawRequested)) =~= seq![
            Effect::SubmitAndPresent,
            Effect::RequestRedraw,
        ],
{
}

/// Initialization is all or nothing: the shell reaches the render loop only
/// with every handle obtained and the surface configured with the first
/// reported format at the drawable size of that instant; any refusal leaves
/// the shell exactly as it was, with no partial state installed.
pub proof fn lemma_init_all_or_nothing(app: App, report: InitReport)
    ensures
        app.resumed_spec(report).1 is Ok <==> report.complete(),
        report.complete() ==> (app.resumed_spec(report).0.state matches Some(s) && s.wf()
            && s.width == report.width && s.height == report.height
            && s.config.width == report.width && s.config.height == report.height
            && s.config.format == selected_format_spec(report.formats@)),
        !report.complete() ==> app.resumed_spec(report).0 == app,
        app.inv() ==> app.resumed_spec(report).0.inv(),
{
}

/// A resize after initialization does not break the render loop: the resize
/// event is ignored — no effect is performed, the shell and its surface
/// configuration stay exactly as configured, the new size is not taken over —
/// and the next redraw still renders and presents one frame.
pub proof fn lemma_resize_keeps_the_loop(app: App, width: u32, height: u32)
    requires
        app.initialized(),
    ensures
        app.dispatch(WindowEvent::Resized { width, height }) == Action::Ignore,
        effects_spec(app.dispatch(WindowEvent::Resized { width, height }))
            =~= Seq::<Effect>::empty(),
        app.dispatch(WindowEvent::RedrawRequested) == Action::RenderAndRequestRedraw,
{
}

} // verus!
