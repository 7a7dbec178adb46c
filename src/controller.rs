use vstd::prelude::*;

verus! {

/// Degrees turned about an axis in one update while its key is held.
pub const ROTATION_STEP_DEGREES: i32 = 6;

/// Tenths of a unit moved toward or away from the target in one update.
pub const RADIAL_STEP_TENTHS: i32 = 3;

/// The keys that the scene reacts to; every other key is `Other`.
#[derive(Clone, Copy, Debug, PartialEq, Eq, Structural)]
pub enum Key {
    W,
    Up,
    S,
    Down,
    A,
    Left,
    D,
    Right,
    LShift,
    LControl,
    E,
    Q,
    L,
    Other,
}

/// The eight independent camera-moving intents.
#[derive(Clone, Copy, Debug, PartialEq, Eq, Structural)]
pub enum Intent {
    Up,
    Down,
    Left,
    Right,
    Forward,
    Backward,
    Clockwise,
    CounterClockwise,
}

/// Which intent a key drives, if any.
pub open spec fn intent_of(key: Key) -> Option<Intent> {
    match key {
        Key::W | Key::Up => Some(Intent::Up),
        Key::S | Key::Down => Some(Intent::Down),
        Key::A | Key::Left => Some(Intent::Left),
        Key::D | Key::Right => Some(Intent::Right),
        Key::LShift => Some(Intent::Forward),
        Key::LControl => Some(Intent::Backward),
        Key::E => Some(Intent::Clockwise),
        Key::Q => Some(Intent::CounterClockwise),
        Key::L | Key::Other => None,
    }
}

/// The step along one axis: `step` when the positive intent is held,
/// otherwise `-step` when the negative one is, otherwise zero.
pub open spec fn axis_step(positive: bool, negative: bool, step: int) -> int {
    if positive {
        step
    } else if negative {
        -step
    } else {
        0
    }
}

/// The change to apply to the camera in one update: rotations in degrees,
/// the radial move in tenths of a unit (positive moves toward the target).
#[derive(Clone, Copy, Debug, PartialEq, Eq, Structural)]
pub struct Adjustment {
    pub yaw: i32,
    pub pitch: i32,
    pub roll: i32,
    pub radial: i32,
}

/// Holds which camera-moving intents are currently held down.
pub struct CameraController {
    pub is_up_pressed: bool,
    pub is_down_pressed: bool,
    pub is_left_pressed: bool,
    pub is_right_pressed: bool,
    pub is_forward_pressed: bool,
    pub is_backward_pressed: bool,
    pub is_cw_pressed: bool,
    pub is_ccw_pressed: bool,
}

impl CameraController {
    /// Whether any of the eight intents is held.
    pub open spec fn any_pressed(&self) -> bool {
        self.is_up_pressed || self.is_down_pressed || self.is_left_pressed || self.is_right_pressed
            || self.is_forward_pressed || self.is_backward_pressed || self.is_cw_pressed
            || self.is_ccw_pressed
    }

    /// Whether the given intent is held.
    pub open spec fn held(&self, intent: Intent) -> bool {
        match intent {
            Intent::Up => self.is_up_pressed,
            Intent::Down => self.is_down_pressed,
            Intent::Left => self.is_left_pressed,
            Intent::Right => self.is_right_pressed,
            Intent::Forward => self.is_forward_pressed,
            Intent::Backward => self.is_backward_pressed,
            Intent::Clockwise => self.is_cw_pressed,
            Intent::CounterClockwise => self.is_ccw_pressed,
        }
    }

    /// The same controller with one intent set to `value` and the others kept.
    pub open spec fn with_intent(self, intent: Intent, value: bool) -> Self {
        match intent {
            Intent::Up => CameraController { is_up_pressed: value, ..self },
            Intent::Down => CameraController { is_down_pressed: value, ..self },
            Intent::Left => CameraController { is_left_pressed: value, ..self },
            Intent::Right => CameraController { is_right_pressed: value, ..self },
            Intent::Forward => CameraController { is_forward_pressed: value, ..self },
            Intent::Backward => CameraController { is_backward_pressed: value, ..self },
            Intent::Clockwise => CameraController { is_cw_pressed: value, ..self },
            Intent::CounterClockwise => CameraController { is_ccw_pressed: value, ..self },
        }
    }

    /// The adjustment that the held intents ask for.
    pub open spec fn adjustment_spec(&self) -> (int, int, int, int) {
        (
            axis_step(self.is_right_pressed, self.is_left_pressed, ROTATION_STEP_DEGREES as int),
            axis_step(self.is_up_pressed, self.is_down_pressed, ROTATION_STEP_DEGREES as int),
            axis_step(self.is_ccw_pressed, self.is_cw_pressed, ROTATION_STEP_DEGREES as int),
            axis_step(self.is_forward_pressed, self.is_backward_pressed, RADIAL_STEP_TENTHS as int),
        )
    }

    /// Creates a controller with no intent held.
    pub fn new() -> (r: Self)
        ensures
            !r.any_pressed(),
    {
        CameraController {
            is_up_pressed: false,
            is_down_pressed: false,
            is_left_pressed: false,
            is_right_pressed: false,
            is_forward_pressed: false,
            is_backward_pressed: false,
            is_cw_pressed: false,
            is_ccw_pressed: false,
        }
    }

    /// Records a press (`pressed`) or release of `key`.
    /// Returns whether the key drives one of the camera intents.
    pub fn process_events(&mut self, key: Key, pressed: bool) -> (handled: bool)
        ensures
            handled == intent_of(key).is_some(),
            intent_of(key) matches Some(i) ==> *final(self) == old(self).with_intent(i, pressed),
            intent_of(key) is None ==> *final(self) == *old(self),
    {
        match key {
            Key::W | Key::Up => self.is_up_pressed = pressed,
            Key::S | Key::Down => self.is_down_pressed = pressed,
            Key::A | Key::Left => self.is_left_pressed = pressed,
            Key::D | Key::Right => self.is_right_pressed = pressed,
            Key::LShift => self.is_forward_pressed = pressed,
            Key::LControl => self.is_backward_pressed = pressed,
            Key::E => self.is_cw_pressed = pressed,
            Key::Q => self.is_ccw_pressed = pressed,
            Key::L | Key::Other => return false,
        }
        true
    }

    /// The adjustment to apply in this update, or `None` when no intent is
    /// held and the camera stays as it is.
    pub fn update_camera(&self) -> (r: Option<Adjustment>)
        ensures
            r is None <==> !self.any_pressed(),
            r matches Some(a) ==> (a.yaw as int, a.pitch as int, a.roll as int, a.radial as int)
                == self.adjustment_spec(),
    {
        let yaw: i32 = if self.is_right_pressed {
            ROTATION_STEP_DEGREES
        } else if self.is_left_pressed {
            -ROTATION_STEP_DEGREES
        } else {
            0
        };
        let pitch: i32 = if self.is_up_pressed {
            ROTATION_STEP_DEGREES
        } else if self.is_down_pressed {
            -ROTATION_STEP_DEGREES
        } else {
            0
        };
        let roll: i32 = if self.is_ccw_pressed {
            ROTATION_STEP_DEGREES
        } else if self.is_cw_pressed {
            -ROTATION_STEP_DEGREES
        } else {
            0
        };
        let radial: i32 = if self.is_forward_pressed {
            RADIAL_STEP_TENTHS
        } else if self.is_backward_pressed {
            -RADIAL_STEP_TENTHS
        } else {
            0
        };
        if yaw == 0 && pitch == 0 && roll == 0 && radial == 0 {
            return None;
        }
        Some(Adjustment { yaw, pitch, roll, radial })
    }
}

/// The scene's input state: the camera intents and whether the light
/// markers are drawn.
pub struct Controls {
    pub camera: CameraController,
    pub show_lights: bool,
}

impl Controls {
    /// Starts with no intent held and the light markers hidden.
    pub fn new() -> (r: Self)
        ensures
            !r.camera.any_pressed(),
            !r.show_lights,
    {
        Controls { camera: CameraController::new(), show_lights: false }
    }

    /// Handles a press or release of `key`: camera keys go to the camera
    /// controller, and a press of `L` flips the visibility of the light markers.
    /// Returns whether the key was handled.
    pub fn input(&mut self, key: Key, pressed: bool) -> (handled: bool)
        ensures
            handled == (intent_of(key).is_some() || key == Key::L),
            intent_of(key) matches Some(i) ==> final(self).camera == old(self).camera.with_intent(
                i,
                pressed,
            ),
            intent_of(key) is None ==> final(self).camera == old(self).camera,
            final(self).show_lights == (if key == Key::L {
                old(self).show_lights != pressed
            } else {
                old(self).show_lights
            }),
    {
        let handled = self.camera.process_events(key, pressed);
        match key {
            Key::L => {
                self.show_lights = self.show_lights != pressed;
                true
            },
            _ => handled,
        }
    }
}

} // verus!
