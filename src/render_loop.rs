use vstd::prelude::*;
use crate::error::{SessionEnd, ViewerError};
use crate::slot::{Polled, TransferSlot};
use vstd::arithmetic::div_mod::{lemma_fundamental_div_mod, lemma_mod_pos_bound};

verus! {

/// How long the loop waits between two reads of the hand-off slot.
pub const POLL_INTERVAL_MS: u64 = 100;

/// The drawing surface's size in device pixels.
#[derive(Clone, Copy, Debug, PartialEq, Eq, Structural)]
pub struct Viewport {
    pub width: u32,
    pub height: u32,
}

#[derive(Clone, Copy, Debug, PartialEq, Eq, Structural)]
pub enum Phase {
    Uninitialized,
    AwaitingModel,
    Running,
    Stopped(SessionEnd),
}

/// One step of a frame, in the order the host must perform them.
#[derive(Clone, Copy, Debug, PartialEq, Eq, Structural)]
pub enum FrameStep {
    /// Let the scene controller move the camera.
    UpdateCamera,
    Clear,
    /// Open the puppet's parameter window.
    BeginParams,
    /// Close the puppet's parameter window.
    EndParams,
    /// Draw the puppet into a viewport of this size.
    Render(Viewport),
    /// Arm the next frame from the tail of this one.
    Reschedule,
}

/// What the host does after an initialization, preparation, close or failure event.
#[derive(Clone, Copy, Debug, PartialEq, Eq, Structural)]
pub enum Directive {
    /// Go on with the next phase of the session (start polling for the model).
    Proceed,
    /// Arm the first frame.
    ArmFrame,
    /// The session is over: report this to the sink and stop.
    Report(SessionEnd),
    /// The event does not apply in the current phase.
    Ignore,
}

/// What the host does after reading the hand-off slot.
#[derive(Debug, PartialEq, Eq)]
pub enum AwaitStep<M> {
    /// The model arrived: prepare the renderer with it and size it to the viewport.
    Start(M, Viewport),
    /// Nothing yet: read again after this many milliseconds.
    Retry(u64),
    /// The session is over: report this to the sink and stop.
    Stop(SessionEnd),
    /// The loop is not waiting for a model.
    NotAwaiting,
}

/// An event of the host's, as a script of them is replayed.
pub enum LoopInput {
    /// The surface was resized to this width and height.
    Resize(u32, u32),
    /// A frame ran.
    Tick,
    /// The host closed the session.
    Close,
}

/// The abstract state of a render loop.
pub struct LoopView {
    pub phase: Phase,
    pub viewport: Viewport,
    /// The renderer was prepared with the model.
    pub prepared: bool,
    /// A frame callback is registered with the host.
    pub armed: bool,
}

/// The state after the session ends with `end`: no frame stays armed.
pub open spec fn stopped_with(v: LoopView, end: SessionEnd) -> LoopView {
    LoopView { phase: Phase::Stopped(end), armed: false, ..v }
}

impl LoopView {
    /// A frame is armed only while running with a prepared renderer, and the
    /// renderer is prepared only once the model has arrived.
    pub open spec fn wf(self) -> bool {
        &&& self.armed ==> self.phase == Phase::Running && self.prepared
        &&& self.prepared ==> (self.phase == Phase::Running || self.phase is Stopped)
    }

    pub open spec fn is_stopped(self) -> bool {
        self.phase is Stopped
    }

    pub open spec fn started(self, init: Result<(), ViewerError>) -> (LoopView, Directive) {
        if self.phase == Phase::Uninitialized {
            match init {
                Ok(()) => (LoopView { phase: Phase::AwaitingModel, ..self }, Directive::Proceed),
                Err(e) => (
                    stopped_with(self, SessionEnd::Crashed(e)),
                    Directive::Report(SessionEnd::Crashed(e)),
                ),
            }
        } else {
            (self, Directive::Ignore)
        }
    }

    pub open spec fn awaited<M>(self, p: Polled<Result<M, ViewerError>>) -> (LoopView, AwaitStep<M>) {
        if self.phase == Phase::AwaitingModel {
            match p {
                Polled::Ready(Ok(m)) => (
                    LoopView { phase: Phase::Running, ..self },
                    AwaitStep::Start(m, self.viewport),
                ),
                Polled::Ready(Err(e)) => (
                    stopped_with(self, SessionEnd::Crashed(e)),
                    AwaitStep::Stop(SessionEnd::Crashed(e)),
                ),
                Polled::Closed => (
                    stopped_with(self, SessionEnd::Crashed(ViewerError::ChannelClosed)),
                    AwaitStep::Stop(SessionEnd::Crashed(ViewerError::ChannelClosed)),
                ),
                Polled::Empty => (self, AwaitStep::Retry(POLL_INTERVAL_MS)),
            }
        } else {
            (self, AwaitStep::NotAwaiting)
        }
    }

    pub open spec fn after_prepare(self, ok: bool) -> (LoopView, Directive) {
        if self.phase == Phase::Running && !self.prepared {
            if ok {
                (LoopView { prepared: true, armed: true, ..self }, Directive::ArmFrame)
            } else {
                (
                    stopped_with(self, SessionEnd::Crashed(ViewerError::RenderInit)),
                    Directive::Report(SessionEnd::Crashed(ViewerError::RenderInit)),
                )
            }
        } else {
            (self, Directive::Ignore)
        }
    }

    /// The renderer must be resized at once only when it exists; a stopped
    /// loop ignores resizes.
    pub open spec fn resized(self, width: u32, height: u32) -> (LoopView, Option<Viewport>) {
        if self.is_stopped() {
            (self, None)
        } else {
            let vp = Viewport { width, height };
            (
                LoopView { viewport: vp, ..self },
                if self.phase == Phase::Running && self.prepared {
                    Some(vp)
                } else {
                    None
                },
            )
        }
    }

    pub open spec fn ended(self, end: SessionEnd) -> (LoopView, Directive) {
        if self.is_stopped() {
            (self, Directive::Ignore)
        } else {
            (stopped_with(self, end), Directive::Report(end))
        }
    }

    /// The steps of the frame that runs in this state: the full sequence
    /// when a frame is armed, nothing otherwise.
    pub open spec fn frame_plan(self) -> Seq<FrameStep> {
        if self.phase == Phase::Running && self.armed {
            seq![
                FrameStep::UpdateCamera,
                FrameStep::Clear,
                FrameStep::BeginParams,
                FrameStep::EndParams,
                FrameStep::Render(self.viewport),
                FrameStep::Reschedule,
            ]
        } else {
            Seq::empty()
        }
    }

    pub open spec fn step(self, input: LoopInput) -> LoopView {
        match input {
            LoopInput::Resize(w, h) => self.resized(w, h).0,
            LoopInput::Tick => self,
            LoopInput::Close => self.ended(SessionEnd::Closed).0,
        }
    }

    pub open spec fn replay(self, script: Seq<LoopInput>) -> LoopView
        decreases script.len(),
    {
        if script.len() == 0 {
            self
        } else {
            self.replay(script.drop_last()).step(script.last())
        }
    }
}

/// The size named by the last resize of `script`, or `initial` if it has none.
pub open spec fn latest_size(initial: Viewport, script: Seq<LoopInput>) -> Viewport
    decreases script.len(),
{
    if script.len() == 0 {
        initial
    } else {
        match script.last() {
            LoopInput::Resize(w, h) => Viewport { width: w, height: h },
            _ => latest_size(initial, script.drop_last()),
        }
    }
}

/// The number of times `x` occurs in `steps`.
pub open spec fn occurrences(steps: Seq<FrameStep>, x: FrameStep) -> nat
    decreases steps.len(),
{
    if steps.len() == 0 {
        0
    } else {
        occurrences(steps.drop_last(), x) + if steps.last() == x {
            1nat
        } else {
            0nat
        }
    }
}

/// Every transition keeps the loop well formed: a frame is armed only while
/// running with a prepared renderer, so at most one frame callback is live
/// and none outlives the session.
pub proof fn lemma_transitions_keep_wf<M>(
    v: LoopView,
    init: Result<(), ViewerError>,
    p: Polled<Result<M, ViewerError>>,
    ok: bool,
    width: u32,
    height: u32,
    end: SessionEnd,
)
    requires
        v.wf(),
    ensures
        v.started(init).0.wf(),
        v.awaited(p).0.wf(),
        v.after_prepare(ok).0.wf(),
        v.resized(width, height).0.wf(),
        v.ended(end).0.wf(),
{
}

/// Within a frame the puppet's parameter window is opened exactly once and
/// closed exactly once, both after the camera update and clear and before
/// the render, which is followed only by arming the next frame.
pub proof fn lemma_frame_brackets_params(v: LoopView)
    requires
        v.frame_plan().len() > 0,
    ensures
        occurrences(v.frame_plan(), FrameStep::BeginParams) == 1,
        occurrences(v.frame_plan(), FrameStep::EndParams) == 1,
        v.frame_plan()[2] == FrameStep::BeginParams,
        v.frame_plan()[3] == FrameStep::EndParams,
        v.frame_plan()[4] == FrameStep::Render(v.viewport),
        v.frame_plan().last() == FrameStep::Reschedule,
{
    let plan = v.frame_plan();
    reveal_with_fuel(occurrences, 7);
    assert(plan.drop_last().drop_last().drop_last().drop_last().drop_last().drop_last() =~= Seq::<
        FrameStep,
    >::empty());
}

/// After any script of resizes, frames and closes, the frame that runs next
/// renders at the size given by the last resize in the script, or at the
/// initial size if there was none.
pub proof fn lemma_render_uses_latest_resize(v: LoopView, script: Seq<LoopInput>)
    ensures
        v.replay(script).frame_plan().len() > 0 ==> v.replay(script).frame_plan()[4]
            == FrameStep::Render(latest_size(v.viewport, script)),
{
    lemma_replay_tracks_size(v, script);
}

proof fn lemma_replay_tracks_size(v: LoopView, script: Seq<LoopInput>)
    ensures
        !v.replay(script).is_stopped() ==> !v.is_stopped() && v.replay(script).viewport
            == latest_size(v.viewport, script),
    decreases script.len(),
{
    if script.len() > 0 {
        lemma_replay_tracks_size(v, script.drop_last());
    }
}

/// The render loop of a viewer session: `Uninitialized`, then
/// `AwaitingModel` once the surface and context are ready, `Running` once the
/// model has arrived, and `Stopped` on close or on a fatal error.
pub struct RenderLoop {
    phase: Phase,
    viewport: Viewport,
    prepared: bool,
    armed: bool,
}

impl View for RenderLoop {
    type V = LoopView;

    closed spec fn view(&self) -> LoopView {
        LoopView {
            phase: self.phase,
            viewport: self.viewport,
            prepared: self.prepared,
            armed: self.armed,
        }
    }
}

impl RenderLoop {
    /// A loop for a surface of the given size.
    pub fn new(width: u32, height: u32) -> (r: RenderLoop)
        ensures
            r@ == (LoopView {
                phase: Phase::Uninitialized,
                viewport: Viewport { width, height },
                prepared: false,
                armed: false,
            }),
            r@.wf(),
    {
        RenderLoop {
            phase: Phase::Uninitialized,
            viewport: Viewport { width, height },
            prepared: false,
            armed: false,
        }
    }

    pub fn phase(&self) -> (r: Phase)
        ensures
            r == self@.phase,
    {
        self.phase
    }

    pub fn viewport(&self) -> (r: Viewport)
        ensures
            r == self@.viewport,
    {
        self.viewport
    }

    fn stop(&mut self, end: SessionEnd)
        ensures
            final(self)@ == stopped_with(old(self)@, end),
    {
        self.phase = Phase::Stopped(end);
        self.armed = false;
    }

    /// Takes the outcome of binding the surface and creating its context.
    pub fn start(&mut self, init: Result<(), ViewerError>) -> (r: Directive)
        ensures
            (final(self)@, r) == old(self)@.started(init),
    {
        if self.phase != Phase::Uninitialized {
            return Directive::Ignore;
        }
        match init {
            Ok(()) => {
                self.phase = Phase::AwaitingModel;
                Directive::Proceed
            },
            Err(e) => {
                self.stop(SessionEnd::Crashed(e));
                Directive::Report(SessionEnd::Crashed(e))
            },
        }
    }

    /// Reads the hand-off slot once while waiting for the model.
    pub fn await_model<M>(
        &mut self,
        slot: &mut TransferSlot<Result<M, ViewerError>>,
    ) -> (r: AwaitStep<M>)
        ensures
            old(self)@.phase == Phase::AwaitingModel ==> {
                &&& (final(self)@, r) == old(self)@.awaited(old(slot)@.polled())
                &&& final(slot)@ == old(slot)@.after_receive()
            },
            old(self)@.phase != Phase::AwaitingModel ==> {
                &&& final(self)@ == old(self)@
                &&& final(slot)@ == old(slot)@
                &&& r is NotAwaiting
            },
    {
        if self.phase != Phase::AwaitingModel {
            return AwaitStep::NotAwaiting;
        }
        match slot.poll() {
            Polled::Ready(Ok(m)) => {
                self.phase = Phase::Running;
                AwaitStep::Start(m, self.viewport)
            },
            Polled::Ready(Err(e)) => {
                self.stop(SessionEnd::Crashed(e));
                AwaitStep::Stop(SessionEnd::Crashed(e))
            },
            Polled::Closed => {
                self.stop(SessionEnd::Crashed(ViewerError::ChannelClosed));
                AwaitStep::Stop(SessionEnd::Crashed(ViewerError::ChannelClosed))
            },
            Polled::Empty => AwaitStep::Retry(POLL_INTERVAL_MS),
        }
    }

    /// Takes whether preparing the renderer with the model succeeded.
    pub fn prepared(&mut self, ok: bool) -> (r: Directive)
        ensures
            (final(self)@, r) == old(self)@.after_prepare(ok),
    {
        if self.phase != Phase::Running || self.prepared {
            return Directive::Ignore;
        }
        if ok {
            self.prepared = true;
            self.armed = true;
            Directive::ArmFrame
        } else {
            self.stop(SessionEnd::Crashed(ViewerError::RenderInit));
            Directive::Report(SessionEnd::Crashed(ViewerError::RenderInit))
        }
    }

    /// Records a new surface size; returns the viewport the renderer must be
    /// resized to now, if it exists.
    pub fn resize(&mut self, width: u32, height: u32) -> (r: Option<Viewport>)
        ensures
            (final(self)@, r) == old(self)@.resized(width, height),
    {
        if let Phase::Stopped(_) = self.phase {
            return None;
        }
        self.viewport = Viewport { width, height };
        if self.phase == Phase::Running && self.prepared {
            Some(self.viewport)
        } else {
            None
        }
    }

    /// The host closed the session.
    pub fn close(&mut self) -> (r: Directive)
        ensures
            (final(self)@, r) == old(self)@.ended(SessionEnd::Closed),
    {
        self.end(SessionEnd::Closed)
    }

    /// A step of the session failed fatally.
    pub fn fail(&mut self, e: ViewerError) -> (r: Directive)
        ensures
            (final(self)@, r) == old(self)@.ended(SessionEnd::Crashed(e)),
    {
        self.end(SessionEnd::Crashed(e))
    }

    fn end(&mut self, end: SessionEnd) -> (r: Directive)
        ensures
            (final(self)@, r) == old(self)@.ended(end),
    {
        if let Phase::Stopped(_) = self.phase {
            return Directive::Ignore;
        }
        self.stop(end);
        Directive::Report(end)
    }

    /// The steps of the frame the host's callback runs now.
    pub fn tick(&self) -> (r: Vec<FrameStep>)
        ensures
            r@ == self@.frame_plan(),
    {
        let mut steps: Vec<FrameStep> = Vec::new();
        if self.phase == Phase::Running && self.armed {
            steps.push(FrameStep::UpdateCamera);
            steps.push(FrameStep::Clear);
            steps.push(FrameStep::BeginParams);
            steps.push(FrameStep::EndParams);
            steps.push(FrameStep::Render(self.viewport));
            steps.push(FrameStep::Reschedule);
        }
        assert(steps@ =~= self@.frame_plan());
        steps
    }
}

} // verus!
