//! Binding state and input decisions of the first-person camera.

use vstd::prelude::*;

use crate::input::{Action, InputState, Key, MouseButton};

verus! {

/// The control state of a first-person camera: which mouse button each
/// pointer gesture is bound to and which key each movement direction is
/// bound to. An unbound gesture (`None`) is disabled. The numeric state of
/// the camera (eye position, yaw, pitch, matrices) lives in the
/// floating-point layer next to the renderer.
#[derive(Clone, Copy, Debug, PartialEq, Eq, Structural)]
pub struct FirstPerson {
    /// The button that rotates the camera (look around), if any.
    pub rotate_button: Option<MouseButton>,
    /// The button that drags the camera in the view plane (pan), if any.
    pub drag_button: Option<MouseButton>,
    /// The key that moves the camera forward, if any.
    pub up_key: Option<Key>,
    /// The key that moves the camera backward, if any.
    pub down_key: Option<Key>,
    /// The key that moves the camera to the left, if any.
    pub left_key: Option<Key>,
    /// The key that moves the camera to the right, if any.
    pub right_key: Option<Key>,
}

impl FirstPerson {
    /// A camera control state with the default bindings: left and right
    /// mouse buttons for look and pan, the arrow keys for movement.
    pub fn new() -> (r: FirstPerson)
        ensures
            r.rotate_button == Some(MouseButton::Button1),
            r.drag_button == Some(MouseButton::Button2),
            r.up_key == Some(Key::Up),
            r.down_key == Some(Key::Down),
            r.left_key == Some(Key::Left),
            r.right_key == Some(Key::Right),
    {
        FirstPerson {
            rotate_button: Some(MouseButton::Button1),
            drag_button: Some(MouseButton::Button2),
            up_key: Some(Key::Up),
            down_key: Some(Key::Down),
            left_key: Some(Key::Left),
            right_key: Some(Key::Right),
        }
    }

    /// The button used to rotate the camera.
    pub fn rotate_button(&self) -> (r: Option<MouseButton>)
        ensures
            r == self.rotate_button,
    {
        self.rotate_button
    }

    /// Set the button used to rotate the camera; `None` disables rotation.
    pub fn rebind_rotate_button(&mut self, new_button: Option<MouseButton>)
        ensures
            *final(self) == (FirstPerson { rotate_button: new_button, ..*old(self) }),
    {
        self.rotate_button = new_button;
    }

    /// The button used to drag the camera.
    pub fn drag_button(&self) -> (r: Option<MouseButton>)
        ensures
            r == self.drag_button,
    {
        self.drag_button
    }

    /// Set the button used to drag the camera; `None` disables dragging.
    pub fn rebind_drag_button(&mut self, new_button: Option<MouseButton>)
        ensures
            *final(self) == (FirstPerson { drag_button: new_button, ..*old(self) }),
    {
        self.drag_button = new_button;
    }

    /// The movement key for up.
    pub fn up_key(&self) -> (r: Option<Key>)
        ensures
            r == self.up_key,
    {
        self.up_key
    }

    /// The movement key for down.
    pub fn down_key(&self) -> (r: Option<Key>)
        ensures
            r == self.down_key,
    {
        self.down_key
    }

    /// The movement key for left.
    pub fn left_key(&self) -> (r: Option<Key>)
        ensures
            r == self.left_key,
    {
        self.left_key
    }

    /// The movement key for right.
    pub fn right_key(&self) -> (r: Option<Key>)
        ensures
            r == self.right_key,
    {
        self.right_key
    }

    /// Set the movement key for up; `None` disables movement in this direction.
    pub fn rebind_up_key(&mut self, new_key: Option<Key>)
        ensures
            *final(self) == (FirstPerson { up_key: new_key, ..*old(self) }),
    {
        self.up_key = new_key;
    }

    /// Set the movement key for down; `None` disables movement in this direction.
    pub fn rebind_down_key(&mut self, new_key: Option<Key>)
        ensures
            *final(self) == (FirstPerson { down_key: new_key, ..*old(self) }),
    {
        self.down_key = new_key;
    }

    /// Set the movement key for left; `None` disables movement in this direction.
    pub fn rebind_left_key(&mut self, new_key: Option<Key>)
        ensures
            *final(self) == (FirstPerson { left_key: new_key, ..*old(self) }),
    {
        self.left_key = new_key;
    }

    /// Set the movement key for right; `None` disables movement in this direction.
    pub fn rebind_right_key(&mut self, new_key: Option<Key>)
        ensures
            *final(self) == (FirstPerson { right_key: new_key, ..*old(self) }),
    {
        self.right_key = new_key;
    }

    /// Disable the movement keys for up, down, left and right.
    pub fn unbind_movement_keys(&mut self)
        ensures
            *final(self) == (FirstPerson {
                up_key: None,
                down_key: None,
                left_key: None,
                right_key: None,
                ..*old(self)
            }),
    {
        self.up_key = None;
        self.down_key = None;
        self.left_key = None;
        self.right_key = None;
    }
}

/// Per-frame movement intent derived from the four movement keys: the signed
/// number of unit steps along the observer's front axis and along its right
/// axis, each in `{-1, 0, 1}`. The numeric layer forms the world-space vector
/// `front_axis * front + right_axis * right`, normalizes it when it is not
/// zero, and scales it by the movement sensitivity.
#[derive(Clone, Copy, Debug, PartialEq, Eq, Structural)]
pub struct MoveDir {
    /// Steps along the observer's front axis.
    pub front: i8,
    /// Steps along the observer's right axis.
    pub right: i8,
}

impl MoveDir {
    /// No movement at all: the eye stays where it is.
    pub open spec fn is_zero(self) -> bool {
        self.front == 0 && self.right == 0
    }
}

/// One window event, reduced to what the control layer decides on. The
/// cursor coordinates and the scroll offset are floating-point values that
/// only the numeric layer reads; the control decision does not depend on
/// them.
#[derive(Clone, Copy, Debug, PartialEq, Eq, Structural)]
pub enum WindowEvent {
    /// The cursor moved.
    CursorPos,
    /// The scroll wheel moved.
    Scroll,
    /// The framebuffer was resized to the given width and height.
    FramebufferSize(u32, u32),
    /// Any other event; the camera ignores it.
    Other,
}

/// What the numeric layer must do in response to one window event.
#[derive(Clone, Copy, Debug, PartialEq, Eq, Structural)]
pub enum EventResponse {
    /// Apply the cursor displacement since the last sample: as a look
    /// gesture (yaw/pitch) when `look` holds, as a pan gesture when `pan`
    /// holds, and in every case remember the new cursor position.
    Cursor { look: bool, pan: bool },
    /// Move the eye along the observer's front axis (dolly zoom) by the
    /// scroll offset times the movement sensitivity.
    Zoom,
    /// Set the projection aspect ratio to width over height and rebuild the
    /// cached matrices.
    Resize(u32, u32),
    /// Do nothing.
    Ignore,
}

/// The signed number of steps contributed by one opposing key pair: one step
/// when only the positive key is held, minus one when only the negative key
/// is held, and zero when both or neither are held.
pub open spec fn step_count(pos: bool, neg: bool) -> i8 {
    if pos && !neg {
        1i8
    } else if neg && !pos {
        -1i8
    } else {
        0i8
    }
}

/// Whether the optional binding `key` is held down in the snapshot.
pub open spec fn spec_key_active(key: Option<Key>, canvas: InputState) -> bool {
    match key {
        Some(actual_key) => canvas.spec_get_key(actual_key) == Action::Press,
        None => false,
    }
}

/// Whether the optional binding `button` is held down in the snapshot.
pub open spec fn spec_button_active(button: Option<MouseButton>, canvas: InputState) -> bool {
    match button {
        Some(actual_button) => canvas.spec_get_mouse_button(actual_button) == Action::Press,
        None => false,
    }
}

impl FirstPerson {
    /// The movement intent for the given key states: `up`/`down` drive the
    /// front axis, `left`/`right` drive the right axis, and an opposing pair
    /// held together cancels.
    pub open spec fn spec_move_dir(up: bool, down: bool, right: bool, left: bool) -> MoveDir {
        MoveDir { front: step_count(up, down), right: step_count(left, right) }
    }

    /// The movement intent of one keyboard poll: each direction counts when
    /// its key is bound and held down in the snapshot.
    pub open spec fn spec_update(self, canvas: InputState) -> MoveDir {
        Self::spec_move_dir(
            spec_key_active(self.up_key, canvas),
            spec_key_active(self.down_key, canvas),
            spec_key_active(self.right_key, canvas),
            spec_key_active(self.left_key, canvas),
        )
    }

    /// What one window event demands of the numeric layer: a cursor move is
    /// a look and/or pan gesture depending on which bound buttons are held,
    /// a scroll is a zoom, a resize carries its new dimensions, and
    /// everything else is ignored.
    pub open spec fn spec_handle_event(self, canvas: InputState, event: WindowEvent) -> EventResponse {
        match event {
            WindowEvent::CursorPos => EventResponse::Cursor {
                look: spec_button_active(self.rotate_button, canvas),
                pan: spec_button_active(self.drag_button, canvas),
            },
            WindowEvent::Scroll => EventResponse::Zoom,
            WindowEvent::FramebufferSize(w, h) => EventResponse::Resize(w, h),
            WindowEvent::Other => EventResponse::Ignore,
        }
    }

    /// The direction the camera is moved by the keyboard for the given key
    /// states, as steps along the observer's front and right axes.
    pub fn move_dir(&self, up: bool, down: bool, right: bool, left: bool) -> (r: MoveDir)
        ensures
            r == Self::spec_move_dir(up, down, right, left),
    {
        let front: i8 = if up && !down {
            1
        } else if down && !up {
            -1
        } else {
            0
        };
        let sideways: i8 = if left && !right {
            1
        } else if right && !left {
            -1
        } else {
            0
        };
        MoveDir { front, right: sideways }
    }

    /// Per-frame keyboard poll: reads the state of the four bound movement
    /// keys from the snapshot and returns the movement intent the numeric
    /// layer must apply this tick.
    pub fn update(&self, canvas: &InputState) -> (r: MoveDir)
        ensures
            r == self.spec_update(*canvas),
    {
        let up = check_optional_key_state(canvas, self.up_key, Action::Press);
        let down = check_optional_key_state(canvas, self.down_key, Action::Press);
        let right = check_optional_key_state(canvas, self.right_key, Action::Press);
        let left = check_optional_key_state(canvas, self.left_key, Action::Press);
        self.move_dir(up, down, right, left)
    }

    /// Dispatch one window event: decide which gesture the numeric layer
    /// must apply, from the event tag, the bindings and the snapshot.
    pub fn handle_event(&self, canvas: &InputState, event: &WindowEvent) -> (r: EventResponse)
        ensures
            r == self.spec_handle_event(*canvas, *event),
    {
        match *event {
            WindowEvent::CursorPos => {
                let look = check_optional_button_state(canvas, self.rotate_button, Action::Press);
                let pan = check_optional_button_state(canvas, self.drag_button, Action::Press);
                EventResponse::Cursor { look, pan }
            }
            WindowEvent::Scroll => EventResponse::Zoom,
            WindowEvent::FramebufferSize(w, h) => EventResponse::Resize(w, h),
            WindowEvent::Other => EventResponse::Ignore,
        }
    }
}

/// Whether `key` is bound and the snapshot reports it in state `key_state`.
/// An unbound key never matches.
pub fn check_optional_key_state(canvas: &InputState, key: Option<Key>, key_state: Action) -> (r: bool)
    ensures
        r == match key {
            Some(actual_key) => canvas.spec_get_key(actual_key) == key_state,
            None => false,
        },
{
    if let Some(actual_key) = key {
        canvas.get_key(actual_key) == key_state
    } else {
        false
    }
}

/// Whether `button` is bound and the snapshot reports it in state `state`.
/// An unbound button never matches.
fn check_optional_button_state(canvas: &InputState, button: Option<MouseButton>, state: Action) -> (r: bool)
    ensures
        r == match button {
            Some(actual_button) => canvas.spec_get_mouse_button(actual_button) == state,
            None => false,
        },
{
    if let Some(actual_button) = button {
        canvas.get_mouse_button(actual_button) == state
    } else {
        false
    }
}

/// Law: with every movement key unbound, the per-frame poll is inert — the
/// movement intent is zero whatever the snapshot reports, so the eye never
/// moves from keyboard input.
pub proof fn lemma_unbound_movement_keys_inert(cam: FirstPerson, canvas: InputState)
    requires
        cam.up_key is None,
        cam.down_key is None,
        cam.left_key is None,
        cam.right_key is None,
    ensures
        cam.spec_update(canvas).is_zero(),
{
}

/// Law: with no key held down in the snapshot, the per-frame poll is inert,
/// whatever the bindings are.
pub proof fn lemma_idle_keyboard_inert(cam: FirstPerson, canvas: InputState)
    requires
        canvas.keys_down@.len() == 0,
    ensures
        cam.spec_update(canvas).is_zero(),
{
}

/// Law: a disabled gesture never fires — with no rotate button bound, a
/// cursor move never demands a look gesture, whatever buttons are held; the
/// pan gesture is unaffected.
pub proof fn lemma_unbound_rotate_button_never_looks(cam: FirstPerson, canvas: InputState)
    requires
        cam.rotate_button is None,
    ensures
        cam.spec_handle_event(canvas, WindowEvent::CursorPos) == (EventResponse::Cursor {
            look: false,
            pan: spec_button_active(cam.drag_button, canvas),
        }),
{
}

/// Law: a disabled gesture never fires — with no drag button bound, a
/// cursor move never demands a pan gesture, whatever buttons are held; the
/// look gesture is unaffected.
pub proof fn lemma_unbound_drag_button_never_pans(cam: FirstPerson, canvas: InputState)
    requires
        cam.drag_button is None,
    ensures
        cam.spec_handle_event(canvas, WindowEvent::CursorPos) == (EventResponse::Cursor {
            look: spec_button_active(cam.rotate_button, canvas),
            pan: false,
        }),
{
}

/// Law: holding both keys of an opposing pair cancels that axis — equal key
/// states on an axis contribute no step, so holding all four keys moves
/// nothing.
pub proof fn lemma_opposing_keys_cancel(up: bool, down: bool, right: bool, left: bool)
    requires
        up == down,
        right == left,
    ensures
        FirstPerson::spec_move_dir(up, down, right, left).is_zero(),
{
}

} // verus!
