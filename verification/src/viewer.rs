//! The interactive viewer's controls: what each key, wheel turn and mouse
//! event does to the viewer's state, and which camera move it asks for.
//!
//! The camera itself (zoom and pan, in world units) is floating point and is
//! moved by the caller as the returned [`CameraAction`] says; everything
//! else the controls decide is here.
use vstd::prelude::*;

verus! {

/// How many demo scenes there are.
pub const SCENE_COUNT: usize = 5;

/// The keys the viewer tells apart.
#[derive(Debug, Clone, Copy, PartialEq, Eq, Structural)]
pub enum Key {
    Space,
    Tab,
    Digit1,
    Digit2,
    Digit3,
    Digit4,
    Digit5,
    KeyR,
    ArrowLeft,
    ArrowRight,
    ArrowUp,
    ArrowDown,
    Equal,
    NumpadAdd,
    Minus,
    NumpadSubtract,
    Escape,
    Other,
}

/// A window event, as far as the controls look at it.
#[derive(Debug, Clone, Copy, PartialEq, Eq, Structural)]
pub enum InputEvent {
    /// A key went down.
    KeyPressed(Key),
    /// The wheel turned; `up` where its vertical delta is positive.
    Wheel { up: bool },
    /// The cursor moved.
    CursorMoved,
    /// The left mouse button went down or up.
    LeftButton { pressed: bool },
    /// The window was asked to close.
    CloseRequested,
    /// The window changed size.
    Resized,
    /// The window asks to be drawn.
    RedrawRequested,
    /// Anything else.
    Other,
}

/// How the camera is to move.
#[derive(Debug, Clone, Copy, PartialEq, Eq, Structural)]
pub enum CameraAction {
    /// Stay where it is.
    Stay,
    /// Back to zoom 10 centred on the origin.
    Reset,
    /// Pan a tenth of the zoom to the left (`-x`).
    PanLeft,
    /// Pan a tenth of the zoom to the right (`+x`).
    PanRight,
    /// Pan a tenth of the zoom up (`+y`).
    PanUp,
    /// Pan a tenth of the zoom down (`-y`).
    PanDown,
    /// Zoom in: the zoom times 0.9.
    ZoomIn,
    /// Zoom out: the zoom times 1.1.
    ZoomOut,
    /// Pan by the cursor's move since its last position, in world units.
    Drag,
}

/// What the viewer reports to its user after an event.
#[derive(Debug, Clone, Copy, PartialEq, Eq, Structural)]
pub enum Notice {
    Silent,
    /// The scene now shown.
    Scene(usize),
    /// Whether the editor is now on.
    EditorMode(bool),
    /// The view was reset.
    ViewReset,
    /// The zoom changed; the caller prints it.
    Zoom,
}

/// The answer of the controls to an event.
#[derive(Debug, Clone, Copy, PartialEq, Eq, Structural)]
pub struct Response {
    /// Whether the controls took the event.
    pub handled: bool,
    pub camera: CameraAction,
    pub notice: Notice,
}

/// The viewer's state, but for the camera.
#[derive(Debug, Clone, Copy, PartialEq, Eq, Structural)]
pub struct ViewerState {
    /// The demo scene shown when the editor is off.
    pub current_scene: usize,
    /// Whether the code editor is on.
    pub use_editor_mode: bool,
    /// Whether the left button is down, dragging the view.
    pub is_dragging: bool,
    /// Whether the cursor's last position is known.
    pub has_cursor: bool,
    /// Whether the picture must be computed again.
    pub needs_update: bool,
}

/// What the window does with an event that the controls did not take.
#[derive(Debug, Clone, Copy, PartialEq, Eq, Structural)]
pub enum WindowAction {
    Nothing,
    Exit,
    Resize,
    Redraw,
}

/// What the picture shows.
#[derive(Debug, Clone, Copy, PartialEq, Eq, Structural)]
pub enum Scene {
    /// The editor's preview: a circle of radius 5.
    EditorPreview,
    /// A circle of radius 2.
    Circle,
    /// Two circles of radius 1.5 at x = -1 and x = 1, joined.
    TwoCircles,
    /// The same two circles, smoothly joined with smoothness 0.8.
    SmoothTwoCircles,
    /// A circle of radius 2.5 less one of radius 1.5.
    Ring,
    /// A face: a disc less two eyes and a mouth.
    Face,
    /// Nothing: a blank picture.
    Blank,
}

/// The scene a key selects directly, where it selects one.
pub open spec fn digit_scene(key: Key) -> Option<usize> {
    match key {
        Key::Digit1 => Some(0),
        Key::Digit2 => Some(1),
        Key::Digit3 => Some(2),
        Key::Digit4 => Some(3),
        Key::Digit5 => Some(4),
        _ => None,
    }
}

/// The camera move a key asks for.
pub open spec fn key_camera(key: Key) -> CameraAction {
    match key {
        Key::KeyR => CameraAction::Reset,
        Key::ArrowLeft => CameraAction::PanLeft,
        Key::ArrowRight => CameraAction::PanRight,
        Key::ArrowUp => CameraAction::PanUp,
        Key::ArrowDown => CameraAction::PanDown,
        Key::Equal | Key::NumpadAdd => CameraAction::ZoomIn,
        Key::Minus | Key::NumpadSubtract => CameraAction::ZoomOut,
        _ => CameraAction::Stay,
    }
}

pub open spec fn response(handled: bool, camera: CameraAction, notice: Notice) -> Response {
    Response { handled, camera, notice }
}

/// The controls as a function from state and event to state and response.
pub open spec fn spec_handle_input(s: ViewerState, event: InputEvent) -> (ViewerState, Response) {
    match event {
        InputEvent::KeyPressed(key) => match key {
            Key::Space => if s.use_editor_mode {
                (s, response(true, CameraAction::Stay, Notice::Silent))
            } else {
                let n = ((s.current_scene + 1) % (SCENE_COUNT as int)) as usize;
                (
                    ViewerState { current_scene: n, needs_update: true, ..s },
                    response(true, CameraAction::Stay, Notice::Scene(n)),
                )
            },
            Key::Tab => (
                ViewerState { use_editor_mode: !s.use_editor_mode, needs_update: true, ..s },
                response(true, CameraAction::Stay, Notice::EditorMode(!s.use_editor_mode)),
            ),
            _ => if digit_scene(key) is Some {
                if s.use_editor_mode {
                    (s, response(false, CameraAction::Stay, Notice::Silent))
                } else {
                    (
                        ViewerState { current_scene: digit_scene(key)->0, needs_update: true, ..s },
                        response(true, CameraAction::Stay, Notice::Silent),
                    )
                }
            } else if key_camera(key) is Stay {
                (s, response(false, CameraAction::Stay, Notice::Silent))
            } else {
                (
                    ViewerState { needs_update: true, ..s },
                    response(
                        true,
                        key_camera(key),
                        match key_camera(key) {
                            CameraAction::Reset => Notice::ViewReset,
                            CameraAction::ZoomIn | CameraAction::ZoomOut => Notice::Zoom,
                            _ => Notice::Silent,
                        },
                    ),
                )
            },
        },
        InputEvent::Wheel { up } => (
            ViewerState { needs_update: true, ..s },
            response(
                true,
                if up {
                    CameraAction::ZoomIn
                } else {
                    CameraAction::ZoomOut
                },
                Notice::Silent,
            ),
        ),
        InputEvent::CursorMoved => if s.is_dragging && s.has_cursor {
            (
                ViewerState { needs_update: true, ..s },
                response(true, CameraAction::Drag, Notice::Silent),
            )
        } else {
            (
                ViewerState { has_cursor: true, ..s },
                response(s.is_dragging, CameraAction::Stay, Notice::Silent),
            )
        },
        InputEvent::LeftButton { pressed } => (
            ViewerState { is_dragging: pressed, ..s },
            response(true, CameraAction::Stay, Notice::Silent),
        ),
        _ => (s, response(false, CameraAction::Stay, Notice::Silent)),
    }
}

impl ViewerState {
    /// The state the viewer starts in: scene 0, editor on, nothing dragged,
    /// the picture to be computed.
    pub fn new() -> (r: ViewerState)
        ensures
            r == (ViewerState {
                current_scene: 0,
                use_editor_mode: true,
                is_dragging: false,
                has_cursor: false,
                needs_update: true,
            }),
    {
        ViewerState {
            current_scene: 0,
            use_editor_mode: true,
            is_dragging: false,
            has_cursor: false,
            needs_update: true,
        }
    }

    /// Take an event: update the state, and say whether the event was taken,
    /// how the camera moves and what to report.
    pub fn handle_input(&mut self, event: InputEvent) -> (r: Response)
        ensures
            (*final(self), r) == spec_handle_input(*old(self), event),
    {
        match event {
            InputEvent::KeyPressed(key) => self.handle_key(key),
            InputEvent::Wheel { up } => {
                self.needs_update = true;
                let camera = if up {
                    CameraAction::ZoomIn
                } else {
                    CameraAction::ZoomOut
                };
                Response { handled: true, camera, notice: Notice::Silent }
            },
            InputEvent::CursorMoved => {
                if self.is_dragging && self.has_cursor {
                    self.needs_update = true;
                    Response { handled: true, camera: CameraAction::Drag, notice: Notice::Silent }
                } else {
                    self.has_cursor = true;
                    Response {
                        handled: self.is_dragging,
                        camera: CameraAction::Stay,
                        notice: Notice::Silent,
                    }
                }
            },
            InputEvent::LeftButton { pressed } => {
                self.is_dragging = pressed;
                Response { handled: true, camera: CameraAction::Stay, notice: Notice::Silent }
            },
            _ => Response { handled: false, camera: CameraAction::Stay, notice: Notice::Silent },
        }
    }

    fn handle_key(&mut self, key: Key) -> (r: Response)
        ensures
            (*final(self), r) == spec_handle_input(*old(self), InputEvent::KeyPressed(key)),
    {
        let silent = Notice::Silent;
        match key {
            Key::Space => {
                if self.use_editor_mode {
                    return Response { handled: true, camera: CameraAction::Stay, notice: silent };
                }
                let n = (self.current_scene % SCENE_COUNT + 1) % SCENE_COUNT;
                assert(n == (self.current_scene + 1) % (SCENE_COUNT as int)) by (nonlinear_arith)
                    requires
                        n == (self.current_scene % 5 + 1) % 5,
                        SCENE_COUNT == 5,
                ;
                self.current_scene = n;
                self.needs_update = true;
                Response { handled: true, camera: CameraAction::Stay, notice: Notice::Scene(n) }
            },
            Key::Tab => {
                self.use_editor_mode = !self.use_editor_mode;
                self.needs_update = true;
                Response {
                    handled: true,
                    camera: CameraAction::Stay,
                    notice: Notice::EditorMode(self.use_editor_mode),
                }
            },
            Key::Digit1 | Key::Digit2 | Key::Digit3 | Key::Digit4 | Key::Digit5 => {
                if self.use_editor_mode {
                    return Response { handled: false, camera: CameraAction::Stay, notice: silent };
                }
                self.current_scene = match key {
                    Key::Digit1 => 0,
                    Key::Digit2 => 1,
                    Key::Digit3 => 2,
                    Key::Digit4 => 3,
                    _ => 4,
                };
                self.needs_update = true;
                Response { handled: true, camera: CameraAction::Stay, notice: silent }
            },
            Key::KeyR => {
                self.needs_update = true;
                Response { handled: true, camera: CameraAction::Reset, notice: Notice::ViewReset }
            },
            Key::ArrowLeft => {
                self.needs_update = true;
                Response { handled: true, camera: CameraAction::PanLeft, notice: silent }
            },
            Key::ArrowRight => {
                self.needs_update = true;
                Response { handled: true, camera: CameraAction::PanRight, notice: silent }
            },
            Key::ArrowUp => {
                self.needs_update = true;
                Response { handled: true, camera: CameraAction::PanUp, notice: silent }
            },
            Key::ArrowDown => {
                self.needs_update = true;
                Response { handled: true, camera: CameraAction::PanDown, notice: silent }
            },
            Key::Equal | Key::NumpadAdd => {
                self.needs_update = true;
                Response { handled: true, camera: CameraAction::ZoomIn, notice: Notice::Zoom }
            },
            Key::Minus | Key::NumpadSubtract => {
                self.needs_update = true;
                Response { handled: true, camera: CameraAction::ZoomOut, notice: Notice::Zoom }
            },
            _ => Response { handled: false, camera: CameraAction::Stay, notice: silent },
        }
    }

    /// What the picture shows: the editor's preview while the editor is on,
    /// else the current demo scene (blank past the last one).
    pub fn scene_shown(&self) -> (r: Scene)
        ensures
            r == spec_scene_shown(*self),
    {
        if self.use_editor_mode {
            Scene::EditorPreview
        } else {
            match self.current_scene {
                0 => Scene::Circle,
                1 => Scene::TwoCircles,
                2 => Scene::SmoothTwoCircles,
                3 => Scene::Ring,
                4 => Scene::Face,
                _ => Scene::Blank,
            }
        }
    }
}

pub open spec fn spec_scene_shown(s: ViewerState) -> Scene {
    if s.use_editor_mode {
        Scene::EditorPreview
    } else if s.current_scene == 0 {
        Scene::Circle
    } else if s.current_scene == 1 {
        Scene::TwoCircles
    } else if s.current_scene == 2 {
        Scene::SmoothTwoCircles
    } else if s.current_scene == 3 {
        Scene::Ring
    } else if s.current_scene == 4 {
        Scene::Face
    } else {
        Scene::Blank
    }
}

/// What the window does with an event after the controls: an event they
/// took is done with; of the others, a close request or Escape ends the
/// program, a resize resizes, a redraw request computes and draws the picture.
pub fn window_action(event: InputEvent, handled: bool) -> (r: WindowAction)
    ensures
        r == (if handled {
            WindowAction::Nothing
        } else {
            match event {
                InputEvent::CloseRequested | InputEvent::KeyPressed(Key::Escape) => WindowAction::Exit,
                InputEvent::Resized => WindowAction::Resize,
                InputEvent::RedrawRequested => WindowAction::Redraw,
                _ => WindowAction::Nothing,
            }
        }),
{
    if handled {
        return WindowAction::Nothing;
    }
    match event {
        InputEvent::CloseRequested => WindowAction::Exit,
        InputEvent::KeyPressed(Key::Escape) => WindowAction::Exit,
        InputEvent::Resized => WindowAction::Resize,
        InputEvent::RedrawRequested => WindowAction::Redraw,
        _ => WindowAction::Nothing,
    }
}

/// The scene stays among the demo scenes: whatever the event, the scene
/// after it is one of them if the scene before it was.
pub proof fn lemma_scene_in_range(s: ViewerState, event: InputEvent)
    requires
        s.current_scene < SCENE_COUNT,
    ensures
        spec_handle_input(s, event).0.current_scene < SCENE_COUNT,
{
}

/// While the editor is on, no event changes the scene.
pub proof fn lemma_editor_keeps_scene(s: ViewerState, event: InputEvent)
    requires
        s.use_editor_mode,
    ensures
        spec_handle_input(s, event).0.current_scene == s.current_scene,
{
}

/// Tab twice leaves the editor as it was, and the scene too.
pub proof fn lemma_tab_twice(s: ViewerState)
    ensures
        ({
            let once = spec_handle_input(s, InputEvent::KeyPressed(Key::Tab)).0;
            let twice = spec_handle_input(once, InputEvent::KeyPressed(Key::Tab)).0;
            twice.use_editor_mode == s.use_editor_mode && twice.current_scene == s.current_scene
        }),
{
}

/// With the editor off, Space pressed as many times as there are scenes
/// comes back to the scene it started from.
pub proof fn lemma_space_cycles(s: ViewerState)
    requires
        !s.use_editor_mode,
        s.current_scene < SCENE_COUNT,
    ensures
        ({
            let space = InputEvent::KeyPressed(Key::Space);
            let s1 = spec_handle_input(s, space).0;
            let s2 = spec_handle_input(s1, space).0;
            let s3 = spec_handle_input(s2, space).0;
            let s4 = spec_handle_input(s3, space).0;
            let s5 = spec_handle_input(s4, space).0;
            s5.current_scene == s.current_scene && !s5.use_editor_mode
        }),
{
}

/// Every event that moves the camera, or changes what is shown, marks the
/// picture to be computed again.
pub proof fn lemma_changes_need_update(s: ViewerState, event: InputEvent)
    ensures
        ({
            let (t, r) = spec_handle_input(s, event);
            (!(r.camera is Stay) || spec_scene_shown(t) != spec_scene_shown(s)) ==> t.needs_update
        }),
{
}

/// With the editor off, the digit keys 1 to 5 jump to scenes 0 to 4, in
/// order, whatever scene was shown: 1 shows the circle, 2 the two circles,
/// 3 their smooth union, 4 the ring and 5 the face.
pub proof fn lemma_digits_select_scenes(s: ViewerState)
    requires
        !s.use_editor_mode,
    ensures
        spec_handle_input(s, InputEvent::KeyPressed(Key::Digit1)).0.current_scene == 0,
        spec_handle_input(s, InputEvent::KeyPressed(Key::Digit2)).0.current_scene == 1,
        spec_handle_input(s, InputEvent::KeyPressed(Key::Digit3)).0.current_scene == 2,
        spec_handle_input(s, InputEvent::KeyPressed(Key::Digit4)).0.current_scene == 3,
        spec_handle_input(s, InputEvent::KeyPressed(Key::Digit5)).0.current_scene == 4,
        spec_scene_shown(spec_handle_input(s, InputEvent::KeyPressed(Key::Digit1)).0) == Scene::Circle,
        spec_scene_shown(spec_handle_input(s, InputEvent::KeyPressed(Key::Digit2)).0)
            == Scene::TwoCircles,
        spec_scene_shown(spec_handle_input(s, InputEvent::KeyPressed(Key::Digit3)).0)
            == Scene::SmoothTwoCircles,
        spec_scene_shown(spec_handle_input(s, InputEvent::KeyPressed(Key::Digit4)).0) == Scene::Ring,
        spec_scene_shown(spec_handle_input(s, InputEvent::KeyPressed(Key::Digit5)).0) == Scene::Face,
{
}

/// The digit keys agree with Space: with the editor off, Space after a digit
/// key shows what the next digit key shows, and Space after 5 what 1 shows.
pub proof fn lemma_digits_follow_space(s: ViewerState)
    requires
        !s.use_editor_mode,
    ensures
        ({
            let space = InputEvent::KeyPressed(Key::Space);
            let after = |k: Key| spec_handle_input(s, InputEvent::KeyPressed(k)).0;
            &&& spec_handle_input(after(Key::Digit1), space).0.current_scene == after(Key::Digit2).current_scene
            &&& spec_handle_input(after(Key::Digit2), space).0.current_scene == after(Key::Digit3).current_scene
            &&& spec_handle_input(after(Key::Digit3), space).0.current_scene == after(Key::Digit4).current_scene
            &&& spec_handle_input(after(Key::Digit4), space).0.current_scene == after(Key::Digit5).current_scene
            &&& spec_handle_input(after(Key::Digit5), space).0.current_scene == after(Key::Digit1).current_scene
        }),
{
}

} // verus!
