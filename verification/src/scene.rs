use vstd::prelude::*;

use crate::capture::CaptureOutcome;
use crate::capture::CaptureStepError;

verus! {

/// How many frame updates the countdown scene waits before the capture is
/// triggered.
pub const COUNTDOWN_TICKS: u32 = 3;

/// One dispatched input event. Anything the scenes do not react to is
/// `Other`.
#[derive(Clone, Copy, Debug, PartialEq, Eq, Structural)]
pub enum InputEvent {
    Trigger,
    Other,
}

/// What the active scene needs from the capture pipeline this frame.
#[derive(Clone, Copy, Debug, PartialEq, Eq, Structural)]
pub enum FrameRequest {
    PreviewFrame,
    FinalCapture,
}

/// State shared between all scenes: the outcome of the most recent capture
/// run, if one has finished and has not yet been acknowledged.
#[derive(Clone, Copy, Debug, PartialEq, Eq, Structural)]
pub struct SharedState {
    pub last_capture: Option<CaptureOutcome>,
}

impl SharedState {
    pub fn new() -> (s: SharedState)
        ensures
            s.last_capture is None,
    {
        SharedState { last_capture: None }
    }
}

/// The waiting mode: reacts to a trigger by entering the preview, and shows
/// the error of a failed capture run, if the last run failed.
#[derive(Clone, Copy, Debug, PartialEq, Eq, Structural)]
pub struct IdleScene {
    pub next_state: bool,
    pub last_error: Option<CaptureStepError>,
}

/// The live viewfinder mode: wants one preview frame every frame, and reacts
/// to a further trigger by starting the countdown.
#[derive(Clone, Copy, Debug, PartialEq, Eq, Structural)]
pub struct PreviewScene {
    pub armed: bool,
}

/// The countdown before the capture: counts frame updates down to zero.
#[derive(Clone, Copy, Debug, PartialEq, Eq, Structural)]
pub struct CountdownScene {
    pub remaining: u32,
}

/// The capture mode: asks for one full capture run, then waits for its
/// outcome to be recorded.
#[derive(Clone, Copy, Debug, PartialEq, Eq, Structural)]
pub struct CaptureScene {
    pub requested: bool,
}

/// One mutually exclusive interaction mode of the application.
#[derive(Clone, Copy, Debug, PartialEq, Eq, Structural)]
pub enum Scene {
    Idle(IdleScene),
    Preview(PreviewScene),
    Countdown(CountdownScene),
    Capture(CaptureScene),
}

/// What the top scene does with the stack after its update.
#[derive(Clone, Copy, Debug, PartialEq, Eq, Structural)]
pub enum SceneSwitch {
    Stay,
    Push(Scene),
    Pop,
}

impl IdleScene {
    pub fn new() -> (s: IdleScene)
        ensures
            !s.next_state,
            s.last_error is None,
    {
        IdleScene { next_state: false, last_error: None }
    }
}

impl PreviewScene {
    pub fn new() -> (s: PreviewScene)
        ensures
            !s.armed,
    {
        PreviewScene { armed: false }
    }
}

impl CountdownScene {
    pub fn new(ticks: u32) -> (s: CountdownScene)
        ensures
            s.remaining == ticks,
    {
        CountdownScene { remaining: ticks }
    }
}

impl CaptureScene {
    pub fn new() -> (s: CaptureScene)
        ensures
            !s.requested,
    {
        CaptureScene { requested: false }
    }
}

impl Scene {
    /// The scene's display name.
    pub fn name(&self) -> (r: &'static str)
        ensures
            self matches Scene::Idle(_) ==> r@ == "IdleScene"@,
            self matches Scene::Preview(_) ==> r@ == "PreviewScene"@,
            self matches Scene::Countdown(_) ==> r@ == "CountdownScene"@,
            self matches Scene::Capture(_) ==> r@ == "CaptureScene"@,
    {
        match self {
            Scene::Idle(_) => "IdleScene",
            Scene::Preview(_) => "PreviewScene",
            Scene::Countdown(_) => "CountdownScene",
            Scene::Capture(_) => "CaptureScene",
        }
    }
}

/// The error indicator an idle scene keeps after a capture run: the step
/// error of a failed run, nothing for a saved one (a failed cleanup is
/// non-fatal).
pub open spec fn idle_indicator(outcome: CaptureOutcome) -> Option<CaptureStepError> {
    match outcome {
        CaptureOutcome::Saved { .. } => None,
        CaptureOutcome::Failed { error } => Some(error),
    }
}

/// One frame update of the active scene: its own next state, what it does
/// with the stack, and the shared state it leaves behind.
///
/// A finished capture run unwinds the stack: every scene above the idle
/// scene pops while an unacknowledged outcome is recorded, and the idle
/// scene acknowledges it, keeping a failed run's error as its indicator.
pub open spec fn spec_scene_update(s: Scene, shared: SharedState) -> (Scene, SceneSwitch, SharedState) {
    match s {
        Scene::Idle(i) => {
            if shared.last_capture is Some {
                (
                    Scene::Idle(IdleScene {
                        next_state: i.next_state,
                        last_error: idle_indicator(shared.last_capture->Some_0),
                    }),
                    SceneSwitch::Stay,
                    SharedState { last_capture: None },
                )
            } else if i.next_state {
                (
                    Scene::Idle(IdleScene { next_state: false, last_error: i.last_error }),
                    SceneSwitch::Push(Scene::Preview(PreviewScene { armed: false })),
                    shared,
                )
            } else {
                (s, SceneSwitch::Stay, shared)
            }
        },
        Scene::Preview(p) => {
            if shared.last_capture is Some {
                (s, SceneSwitch::Pop, shared)
            } else if p.armed {
                (
                    Scene::Preview(PreviewScene { armed: false }),
                    SceneSwitch::Push(Scene::Countdown(CountdownScene { remaining: COUNTDOWN_TICKS })),
                    shared,
                )
            } else {
                (s, SceneSwitch::Stay, shared)
            }
        },
        Scene::Countdown(c) => {
            if shared.last_capture is Some {
                (s, SceneSwitch::Pop, shared)
            } else if c.remaining > 0 {
                (Scene::Countdown(CountdownScene { remaining: (c.remaining - 1) as u32 }), SceneSwitch::Stay, shared)
            } else {
                (s, SceneSwitch::Push(Scene::Capture(CaptureScene { requested: false })), shared)
            }
        },
        Scene::Capture(_) => {
            if shared.last_capture is Some {
                (s, SceneSwitch::Pop, shared)
            } else {
                (s, SceneSwitch::Stay, shared)
            }
        },
    }
}

/// How the active scene reacts to one input event: a trigger arms the idle
/// scene and the preview scene; everything else is ignored.
pub open spec fn spec_scene_input(s: Scene, e: InputEvent) -> Scene {
    match (s, e) {
        (Scene::Idle(i), InputEvent::Trigger) => Scene::Idle(
            IdleScene { next_state: true, last_error: i.last_error },
        ),
        (Scene::Preview(_), InputEvent::Trigger) => Scene::Preview(PreviewScene { armed: true }),
        (other, _) => other,
    }
}

/// What the scene needs from the capture pipeline: the preview scene wants a
/// preview frame every frame, the capture scene wants one full capture run
/// until one has been recorded.
pub open spec fn spec_frame_request(s: Scene) -> Option<FrameRequest> {
    match s {
        Scene::Preview(_) => Some(FrameRequest::PreviewFrame),
        Scene::Capture(c) => if !c.requested {
            Some(FrameRequest::FinalCapture)
        } else {
            None
        },
        _ => None,
    }
}

/// Runs one frame update of a scene, exactly as `spec_scene_update`
/// describes.
pub fn scene_update(s: Scene, shared: SharedState) -> (r: (Scene, SceneSwitch, SharedState))
    ensures
        r == spec_scene_update(s, shared),
{
    match s {
        Scene::Idle(i) => {
            match shared.last_capture {
                Some(outcome) => {
                    let indicator = match outcome {
                        CaptureOutcome::Saved { .. } => None,
                        CaptureOutcome::Failed { error } => Some(error),
                    };
                    (
                        Scene::Idle(IdleScene { next_state: i.next_state, last_error: indicator }),
                        SceneSwitch::Stay,
                        SharedState { last_capture: None },
                    )
                },
                None => {
                    if i.next_state {
                        (
                            Scene::Idle(IdleScene { next_state: false, last_error: i.last_error }),
                            SceneSwitch::Push(Scene::Preview(PreviewScene { armed: false })),
                            shared,
                        )
                    } else {
                        (s, SceneSwitch::Stay, shared)
                    }
                },
            }
        },
        Scene::Preview(p) => {
            if shared.last_capture.is_some() {
                (s, SceneSwitch::Pop, shared)
            } else if p.armed {
                (
                    Scene::Preview(PreviewScene { armed: false }),
                    SceneSwitch::Push(Scene::Countdown(CountdownScene { remaining: COUNTDOWN_TICKS })),
                    shared,
                )
            } else {
                (s, SceneSwitch::Stay, shared)
            }
        },
        Scene::Countdown(c) => {
            if shared.last_capture.is_some() {
                (s, SceneSwitch::Pop, shared)
            } else if c.remaining > 0 {
                (
                    Scene::Countdown(CountdownScene { remaining: c.remaining - 1 }),
                    SceneSwitch::Stay,
                    shared,
                )
            } else {
                (s, SceneSwitch::Push(Scene::Capture(CaptureScene { requested: false })), shared)
            }
        },
        Scene::Capture(_) => {
            if shared.last_capture.is_some() {
                (s, SceneSwitch::Pop, shared)
            } else {
                (s, SceneSwitch::Stay, shared)
            }
        },
    }
}

/// Reacts to one input event, exactly as `spec_scene_input` describes.
pub fn scene_input(s: Scene, e: InputEvent) -> (r: Scene)
    ensures
        r == spec_scene_input(s, e),
{
    match (s, e) {
        (Scene::Idle(i), InputEvent::Trigger) => Scene::Idle(
            IdleScene { next_state: true, last_error: i.last_error },
        ),
        (Scene::Preview(_), InputEvent::Trigger) => Scene::Preview(PreviewScene { armed: true }),
        (other, _) => other,
    }
}

/// The stack contents and shared state after one frame update of the top
/// scene. A pop of the bottom scene is ignored, so the stack never empties.
pub open spec fn stack_after_update(v: Seq<Scene>, shared: SharedState) -> (Seq<Scene>, SharedState)
    recommends
        v.len() >= 1,
{
    let (s2, sw, sh2) = spec_scene_update(v.last(), shared);
    let v2 = v.update(v.len() - 1, s2);
    match sw {
        SceneSwitch::Stay => (v2, sh2),
        SceneSwitch::Push(p) => (v2.push(p), sh2),
        SceneSwitch::Pop => if v.len() >= 2 {
            (v.drop_last(), sh2)
        } else {
            (v2, sh2)
        },
    }
}

/// The ordered scene stack: the last scene is active, everything beneath it
/// is frozen until the scenes above it pop. It is never empty.
pub struct SceneStack {
    pub scenes: Vec<Scene>,
    pub shared: SharedState,
}

impl SceneStack {
    /// The stack is never empty while the application runs.
    pub open spec fn wf(self) -> bool {
        self.scenes@.len() >= 1
    }

    pub fn new(initial: Scene, shared: SharedState) -> (st: SceneStack)
        ensures
            st.wf(),
            st.scenes@ == seq![initial],
            st.shared == shared,
    {
        let mut scenes: Vec<Scene> = Vec::new();
        scenes.push(initial);
        proof {
            assert(scenes@ =~= seq![initial]);
        }
        SceneStack { scenes, shared }
    }

    /// Makes `s` the active scene; the scene beneath it is paused exactly as
    /// it was.
    pub fn push(&mut self, s: Scene)
        ensures
            final(self).scenes@ == old(self).scenes@.push(s),
            final(self).shared == old(self).shared,
    {
        self.scenes.push(s);
    }

    /// Removes and returns the active scene; the scene beneath it becomes
    /// active again with its state untouched.
    pub fn pop(&mut self) -> (top: Scene)
        requires
            old(self).scenes@.len() >= 2,
        ensures
            final(self).wf(),
            final(self).scenes@ == old(self).scenes@.drop_last(),
            top == old(self).scenes@.last(),
            final(self).shared == old(self).shared,
    {
        let top = self.scenes.pop().unwrap();
        top
    }

    /// The active scene.
    pub fn active(&self) -> (s: Scene)
        requires
            self.wf(),
        ensures
            s == self.scenes@.last(),
    {
        self.scenes[self.scenes.len() - 1]
    }

    /// Hands one input event to the active scene only.
    pub fn input(&mut self, e: InputEvent)
        requires
            old(self).wf(),
        ensures
            final(self).wf(),
            final(self).scenes@ == old(self).scenes@.update(
                old(self).scenes@.len() - 1,
                spec_scene_input(old(self).scenes@.last(), e),
            ),
            final(self).shared == old(self).shared,
    {
        let top = self.scenes.pop().unwrap();
        let top2 = scene_input(top, e);
        self.scenes.push(top2);
        proof {
            assert(self.scenes@ =~= old(self).scenes@.update(
                old(self).scenes@.len() - 1,
                spec_scene_input(old(self).scenes@.last(), e),
            ));
        }
    }

    /// Runs one frame update of the active scene only, and applies the stack
    /// switch it asks for.
    pub fn update(&mut self)
        requires
            old(self).wf(),
        ensures
            final(self).wf(),
            final(self).scenes@ == stack_after_update(old(self).scenes@, old(self).shared).0,
            final(self).shared == stack_after_update(old(self).scenes@, old(self).shared).1,
    {
        let ghost old_scenes = self.scenes@;
        let top = self.scenes.pop().unwrap();
        let (top2, sw, sh2) = scene_update(top, self.shared);
        self.shared = sh2;
        match sw {
            SceneSwitch::Stay => {
                self.scenes.push(top2);
            },
            SceneSwitch::Push(p) => {
                self.scenes.push(top2);
                self.scenes.push(p);
            },
            SceneSwitch::Pop => {
                if self.scenes.len() == 0 {
                    self.scenes.push(top2);
                }
            },
        }
        proof {
            assert(self.scenes@ =~= stack_after_update(old_scenes, old(self).shared).0);
        }
    }

    /// What the active scene needs from the capture pipeline this frame.
    pub fn frame_request(&self) -> (r: Option<FrameRequest>)
        requires
            self.wf(),
        ensures
            r == spec_frame_request(self.scenes@.last()),
    {
        match self.active() {
            Scene::Preview(_) => Some(FrameRequest::PreviewFrame),
            Scene::Capture(c) => if !c.requested {
                Some(FrameRequest::FinalCapture)
            } else {
                None
            },
            _ => None,
        }
    }

    /// Records the outcome of a finished capture run in the shared state, so
    /// that the following frame updates unwind the stack back to the idle
    /// scene. An active capture scene is marked as served.
    pub fn record_capture_outcome(&mut self, outcome: CaptureOutcome)
        requires
            old(self).wf(),
        ensures
            final(self).wf(),
            final(self).shared == (SharedState { last_capture: Some(outcome) }),
            final(self).scenes@ == if old(self).scenes@.last() matches Scene::Capture(_) {
                old(self).scenes@.update(
                    old(self).scenes@.len() - 1,
                    Scene::Capture(CaptureScene { requested: true }),
                )
            } else {
                old(self).scenes@
            },
    {
        self.shared = SharedState { last_capture: Some(outcome) };
        let top = self.scenes.pop().unwrap();
        match top {
            Scene::Capture(_) => {
                self.scenes.push(Scene::Capture(CaptureScene { requested: true }));
                proof {
                    assert(self.scenes@ =~= old(self).scenes@.update(
                        old(self).scenes@.len() - 1,
                        Scene::Capture(CaptureScene { requested: true }),
                    ));
                }
            },
            other => {
                self.scenes.push(other);
                proof {
                    assert(self.scenes@ =~= old(self).scenes@);
                }
            },
        }
    }
}

/// A frame update touches the active scene alone: every scene beneath the
/// top keeps exactly the state it had, so returning to it later resumes it
/// unchanged.
pub proof fn lemma_update_preserves_paused_scenes(v: Seq<Scene>, shared: SharedState, i: int)
    requires
        v.len() >= 1,
        0 <= i < v.len() - 1,
    ensures
        stack_after_update(v, shared).0[i] == v[i],
{
}

/// A frame update never empties the stack: whatever the active scene asks
/// for, at least the bottom scene remains.
pub proof fn lemma_update_keeps_stack_nonempty(v: Seq<Scene>, shared: SharedState)
    requires
        v.len() >= 1,
    ensures
        stack_after_update(v, shared).0.len() >= 1,
{
}

/// Pushing any run of scenes and then popping as many returns the stack to
/// exactly the scenes it held before, the original bottom scene and its
/// state included: popping `w.len()` times from `v + w` leaves `v`.
pub proof fn lemma_push_pop_restores(v: Seq<Scene>, w: Seq<Scene>)
    ensures
        (v + w).subrange(0, v.len() as int) == v,
{
    assert((v + w).subrange(0, v.len() as int) =~= v);
}

} // verus!

