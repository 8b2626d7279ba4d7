use vstd::prelude::*;

verus! {

/// What the viewer decides on between events: whether its scene (window,
/// GPU state and camera) exists yet, and whether the left mouse button is
/// held down over the window.
#[derive(Clone, Copy, Debug, PartialEq, Eq, Structural)]
pub struct ViewerState {
    pub has_scene: bool,
    pub dragging: bool,
}

/// An event of the windowing system, reduced to what the viewer decides on.
#[derive(Clone, Copy, Debug, PartialEq, Eq, Structural)]
pub enum ViewerEvent {
    /// The application started or resumed.
    Resumed,
    /// The user asked to close the window.
    CloseRequested,
    /// A mouse button changed state; `left` tells whether it is the left one.
    MouseButton { left: bool, pressed: bool },
    /// The window must be drawn again.
    RedrawRequested,
    /// The window's drawable area changed size.
    Resized { width: u32, height: u32 },
    /// The mouse moved (a raw device event).
    MouseMotion,
    /// Any other event.
    Other,
}

/// What the surrounding program has to do after an event.
#[derive(Clone, Copy, Debug, PartialEq, Eq, Structural)]
pub enum ViewerAction {
    /// Nothing.
    Nothing,
    /// Leave the event loop.
    Exit,
    /// Create the window and the scene, then ask for a first frame.
    CreateScene,
    /// Draw a frame.
    Render,
    /// Resize the surface and the depth buffer to the given size, then ask
    /// for a new frame.
    Reconfigure { width: u32, height: u32 },
    /// Turn the camera by the mouse movement, then ask for a new frame.
    RotateCamera,
}

/// The viewer's decision for `event` in state `s`: the next state and the
/// action to take.
pub open spec fn transition(s: ViewerState, event: ViewerEvent) -> (ViewerState, ViewerAction) {
    match event {
        ViewerEvent::Resumed => (ViewerState { has_scene: true, dragging: false }, ViewerAction::CreateScene),
        ViewerEvent::CloseRequested => (s, ViewerAction::Exit),
        ViewerEvent::MouseButton { left, pressed } => {
            if left && s.has_scene {
                (ViewerState { dragging: pressed, ..s }, ViewerAction::Nothing)
            } else {
                (s, ViewerAction::Nothing)
            }
        },
        ViewerEvent::RedrawRequested => (s, if s.has_scene { ViewerAction::Render } else { ViewerAction::Nothing }),
        ViewerEvent::Resized { width, height } => (
            s,
            if s.has_scene { ViewerAction::Reconfigure { width, height } } else { ViewerAction::Nothing },
        ),
        ViewerEvent::MouseMotion => (
            s,
            if s.has_scene && s.dragging { ViewerAction::RotateCamera } else { ViewerAction::Nothing },
        ),
        ViewerEvent::Other => (s, ViewerAction::Nothing),
    }
}

impl ViewerState {
    /// The state before the application has started: no scene, no drag.
    pub fn new() -> (s: ViewerState)
        ensures
            !s.has_scene,
            !s.dragging,
    {
        ViewerState { has_scene: false, dragging: false }
    }

    /// Decides what `event` changes and what has to be done about it.
    pub fn handle(self, event: ViewerEvent) -> (r: (ViewerState, ViewerAction))
        ensures
            r == transition(self, event),
    {
        match event {
            ViewerEvent::Resumed => (ViewerState { has_scene: true, dragging: false }, ViewerAction::CreateScene),
            ViewerEvent::CloseRequested => (self, ViewerAction::Exit),
            ViewerEvent::MouseButton { left, pressed } => {
                if left && self.has_scene {
                    (ViewerState { has_scene: self.has_scene, dragging: pressed }, ViewerAction::Nothing)
                } else {
                    (self, ViewerAction::Nothing)
                }
            },
            ViewerEvent::RedrawRequested => {
                if self.has_scene {
                    (self, ViewerAction::Render)
                } else {
                    (self, ViewerAction::Nothing)
                }
            },
            ViewerEvent::Resized { width, height } => {
                if self.has_scene {
                    (self, ViewerAction::Reconfigure { width, height })
                } else {
                    (self, ViewerAction::Nothing)
                }
            },
            ViewerEvent::MouseMotion => {
                if self.has_scene && self.dragging {
                    (self, ViewerAction::RotateCamera)
                } else {
                    (self, ViewerAction::Nothing)
                }
            },
            ViewerEvent::Other => (self, ViewerAction::Nothing),
        }
    }
}

/// Only the left mouse button, while a scene exists, sets or clears the drag;
/// starting the application clears it.
pub proof fn lemma_drag_changes_only_by_left_button(s: ViewerState, event: ViewerEvent)
    ensures
        transition(s, event).0.dragging != s.dragging ==> event is Resumed || (event matches ViewerEvent::MouseButton {
            left,
            pressed,
        } && left && s.has_scene && pressed == transition(s, event).0.dragging),
{
}

/// The camera turns exactly on mouse motion while a scene exists and the left
/// button is held.
pub proof fn lemma_rotation_exactly_while_dragging(s: ViewerState, event: ViewerEvent)
    ensures
        transition(s, event).1 == ViewerAction::RotateCamera <==> (event is MouseMotion && s.has_scene
            && s.dragging),
{
}

/// The viewer leaves its event loop exactly when the window is asked to close.
pub proof fn lemma_exit_exactly_on_close(s: ViewerState, event: ViewerEvent)
    ensures
        transition(s, event).1 == ViewerAction::Exit <==> event is CloseRequested,
{
}

/// Before the scene exists no frame is drawn, no surface is reconfigured and
/// the camera does not move; once it exists it stays.
pub proof fn lemma_scene_guards_gpu_work(s: ViewerState, event: ViewerEvent)
    ensures
        !s.has_scene && !(event is Resumed) ==> transition(s, event).1 == ViewerAction::Nothing
            || transition(s, event).1 == ViewerAction::Exit,
        s.has_scene ==> transition(s, event).0.has_scene,
{
}

/// With a scene shown, pressing the left button and then moving the mouse
/// turns the camera; releasing it and then moving does not.
pub proof fn lemma_press_move_release_move(s: ViewerState)
    requires
        s.has_scene,
    ensures
        ({
            let pressed = transition(s, ViewerEvent::MouseButton { left: true, pressed: true }).0;
            transition(pressed, ViewerEvent::MouseMotion).1 == ViewerAction::RotateCamera
        }),
        ({
            let released = transition(s, ViewerEvent::MouseButton { left: true, pressed: false }).0;
            transition(released, ViewerEvent::MouseMotion).1 == ViewerAction::Nothing
        }),
{
}

/// A frame is drawn exactly on a redraw request while a scene exists, whatever
/// the drag state.
pub proof fn lemma_render_exactly_on_redraw_with_scene(s: ViewerState, event: ViewerEvent)
    ensures
        transition(s, event).1 == ViewerAction::Render <==> (event is RedrawRequested && s.has_scene),
        s.has_scene ==> transition(s, ViewerEvent::RedrawRequested).1 == ViewerAction::Render,
{
}

/// The surface is resized exactly on a resize while a scene exists, to the new
/// size, whatever the drag state.
pub proof fn lemma_reconfigure_exactly_on_resize_with_scene(s: ViewerState, event: ViewerEvent, width: u32, height: u32)
    ensures
        transition(s, event).1 == (ViewerAction::Reconfigure { width, height }) <==> (event == (ViewerEvent::Resized {
            width,
            height,
        }) && s.has_scene),
        s.has_scene ==> transition(s, ViewerEvent::Resized { width, height }).1 == (ViewerAction::Reconfigure {
            width,
            height,
        }),
{
}

/// The scene is (re)built exactly on a resume; a mouse-button event never asks
/// for any action, it only sets or clears the drag.
pub proof fn lemma_scene_created_exactly_on_resume(s: ViewerState, event: ViewerEvent, left: bool, pressed: bool)
    ensures
        transition(s, event).1 == ViewerAction::CreateScene <==> event is Resumed,
        transition(s, ViewerEvent::MouseButton { left, pressed }).1 == ViewerAction::Nothing,
        transition(s, ViewerEvent::MouseButton { left, pressed }).0.has_scene == s.has_scene,
{
}

/// Only a resume and a left-button event change the state; a redraw, a
/// resize, a close, mouse motion and any other event leave it as it was.
pub proof fn lemma_state_kept_by_other_events(s: ViewerState, event: ViewerEvent)
    ensures
        !(event is Resumed) && !(event is MouseButton) ==> transition(s, event).0 == s,
        transition(s, event).0.has_scene == (s.has_scene || event is Resumed),
{
}

/// The state after handling `events` in order, starting from `s`.
pub open spec fn run(s: ViewerState, events: Seq<ViewerEvent>) -> ViewerState
    decreases events.len(),
{
    if events.len() == 0 {
        s
    } else {
        transition(run(s, events.drop_last()), events.last()).0
    }
}

/// Whether the latest left-button event among `events` was a press, or `None`
/// when there is no left-button event.
pub open spec fn latest_left_button(events: Seq<ViewerEvent>) -> Option<bool>
    decreases events.len(),
{
    if events.len() == 0 {
        None
    } else {
        match events.last() {
            ViewerEvent::MouseButton { left, pressed } if left => Some(pressed),
            _ => latest_left_button(events.drop_last()),
        }
    }
}

/// Over any run of events without a resume, a shown scene stays shown, and
/// the drag is on exactly when the latest left-button event was a press (or,
/// with no such event, as it was before the run).
pub proof fn lemma_drag_follows_latest_left_button(s: ViewerState, events: Seq<ViewerEvent>)
    requires
        s.has_scene,
        forall|i: int| 0 <= i < events.len() ==> !(#[trigger] events[i] is Resumed),
    ensures
        run(s, events).has_scene,
        run(s, events).dragging == match latest_left_button(events) {
            Some(pressed) => pressed,
            None => s.dragging,
        },
    decreases events.len(),
{
    if events.len() > 0 {
        let init = events.drop_last();
        assert forall|i: int| 0 <= i < init.len() implies !(#[trigger] init[i] is Resumed) by {
            assert(init[i] == events[i]);
        }
        lemma_drag_follows_latest_left_button(s, init);
        assert(!(events[events.len() - 1] is Resumed));
    }
}

/// From the moment a scene is created, the drag is on exactly when at least one
/// left-button event has arrived since and the latest of them was a press.
pub proof fn lemma_drag_since_resume(before: ViewerState, events: Seq<ViewerEvent>)
    requires
        forall|i: int| 0 <= i < events.len() ==> !(#[trigger] events[i] is Resumed),
    ensures
        ({
            let fresh = transition(before, ViewerEvent::Resumed).0;
            run(fresh, events).dragging == (latest_left_button(events) == Some(true))
        }),
{
    let fresh = transition(before, ViewerEvent::Resumed).0;
    lemma_drag_follows_latest_left_button(fresh, events);
}

} // verus!
