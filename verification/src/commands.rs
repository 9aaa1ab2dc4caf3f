use std::collections::HashSet;
use vstd::prelude::*;

verus! {

/// One coordinate or colour channel. The library moves these values from the
/// caller to the renderer without computing with them, so it keeps each as the
/// 32-bit IEEE-754 bit pattern of the single-precision number it stands for.
pub type Scalar = u32;

/// A point in logical pixels: `[x, y]`.
pub type Point = [Scalar; 2];

/// An RGBA colour, each channel in `0.0..=1.0`.
pub type Color = [Scalar; 4];

/// The bit pattern of `0.0`.
pub const SCALAR_ZERO: Scalar = 0;

/// The bit pattern of `1.0`.
pub const SCALAR_ONE: Scalar = 0x3f80_0000;

/// A key, by the identifier that the embedding application gives it.
pub type KeyId = u32;

/// Opaque white, the colour every drawing surface starts with.
pub open spec fn spec_white() -> Color {
    [SCALAR_ONE, SCALAR_ONE, SCALAR_ONE, SCALAR_ONE]
}

/// Opaque white.
pub fn white() -> (c: Color)
    ensures
        c == spec_white(),
{
    [SCALAR_ONE, SCALAR_ONE, SCALAR_ONE, SCALAR_ONE]
}

/// The origin of the window, top left.
pub open spec fn spec_origin() -> Point {
    [SCALAR_ZERO, SCALAR_ZERO]
}

/// One thing to draw, with the colour it is drawn in.
#[derive(Clone)]
pub enum DrawCmd {
    Triangle { verts: [Point; 3], color: Color },
    Line { p1: Point, p2: Point, color: Color },
    Bezier { p1: Point, p2: Point, p3: Point, p4: Point, color: Color },
    Text { text: String, pos: Point, color: Color },
}

/// What the drawing thread sends to the rendering thread.
pub enum RenderCmd {
    /// Everything drawn since the previous frame, in the order it was drawn.
    Frame(Vec<DrawCmd>),
    /// Close the window.
    Close,
}

/// The input state that the event loop keeps up to date and the drawing
/// thread reads.
pub struct InputState {
    pub mouse_pos: Point,
    pub keys_down: HashSet<KeyId>,
    pub mouse_down: [bool; 5],
    pub window_size: Point,
}

/// What the input state is, seen from outside.
pub struct InputView {
    pub mouse_pos: Point,
    pub keys_down: Set<KeyId>,
    pub mouse_down: [bool; 5],
    pub window_size: Point,
}

impl View for InputState {
    type V = InputView;

    open spec fn view(&self) -> InputView {
        InputView {
            mouse_pos: self.mouse_pos,
            keys_down: self.keys_down@,
            mouse_down: self.mouse_down,
            window_size: self.window_size,
        }
    }
}

impl InputState {
    /// The state before any event: the mouse at the origin, no key or button
    /// down, and the given logical window size.
    pub fn new(window_size: Point) -> (s: InputState)
        ensures
            s.mouse_pos == spec_origin(),
            s.keys_down@ == Set::<KeyId>::empty(),
            s.mouse_down == [false, false, false, false, false],
            s.window_size == window_size,
    {
        InputState {
            mouse_pos: [SCALAR_ZERO, SCALAR_ZERO],
            keys_down: HashSet::new(),
            mouse_down: [false, false, false, false, false],
            window_size,
        }
    }

    /// Whether the key is held down.
    pub fn is_key_down(&self, key: KeyId) -> (down: bool)
        ensures
            down == self.keys_down@.contains(key),
    {
        broadcast use vstd::std_specs::hash::group_hash_axioms;
        self.keys_down.contains(&key)
    }

    /// Where the mouse is, in logical pixels.
    pub fn get_mouse_pos(&self) -> (pos: Point)
        ensures
            pos == self.mouse_pos,
    {
        self.mouse_pos
    }
}

impl Default for InputState {
    fn default() -> (s: InputState)
        ensures
            s.mouse_pos == spec_origin(),
            s.keys_down@ == Set::<KeyId>::empty(),
            s.mouse_down == [false, false, false, false, false],
            s.window_size == spec_origin(),
    {
        InputState::new([SCALAR_ZERO, SCALAR_ZERO])
    }
}

} // verus!
