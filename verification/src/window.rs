use crate::commands::{spec_white, white, Color, DrawCmd, InputState, Point, RenderCmd, Scalar};
use vstd::prelude::*;

verus! {

/// The drawing side of a window: the colour in effect, the logical size it
/// was opened with, and the saved colours and pending commands. Its fields
/// are public, so a caller may set the colour by writing `color_stack`; the
/// next command drawn carries it.
pub struct Window {
    /// The colour that the next drawing command is drawn in.
    pub color_stack: Color,
    pub width: Scalar,
    pub height: Scalar,
    /// The saved colours and the commands drawn since the last frame.
    pub state: WindowState,
}

/// The colours saved beneath the one in effect, and the commands drawn since
/// the last frame was handed over.
pub struct WindowState {
    saved_colors: Vec<Color>,
    frame_buffer: Vec<DrawCmd>,
}

/// What a window state is, seen from outside.
pub struct WindowStateView {
    pub saved: Seq<Color>,
    pub pending: Seq<DrawCmd>,
}

impl View for WindowState {
    type V = WindowStateView;

    closed spec fn view(&self) -> WindowStateView {
        WindowStateView { saved: self.saved_colors@, pending: self.frame_buffer@ }
    }
}

impl WindowState {
    /// Nothing saved and nothing drawn.
    pub fn new() -> (s: WindowState)
        ensures
            s@.saved == Seq::<Color>::empty(),
            s@.pending == Seq::<DrawCmd>::empty(),
    {
        WindowState { saved_colors: Vec::new(), frame_buffer: Vec::with_capacity(1024) }
    }

    /// Saves `c` on top of the saved colours.
    pub fn save_color(&mut self, c: Color)
        ensures
            final(self)@ == (WindowStateView { saved: old(self)@.saved.push(c), ..old(self)@ }),
    {
        self.saved_colors.push(c);
    }

    /// Takes the most recently saved colour off the saved colours, if any.
    pub fn restore_color(&mut self) -> (c: Option<Color>)
        ensures
            old(self)@.saved.len() > 0 ==> c == Some(old(self)@.saved.last()) && final(self)@
                == (WindowStateView { saved: old(self)@.saved.drop_last(), ..old(self)@ }),
            old(self)@.saved.len() == 0 ==> c is None && final(self)@ == old(self)@,
    {
        self.saved_colors.pop()
    }

    /// Appends `cmd` to the pending commands.
    pub fn push(&mut self, cmd: DrawCmd)
        ensures
            final(self)@ == (WindowStateView { pending: old(self)@.pending.push(cmd), ..old(self)@ }),
    {
        self.frame_buffer.push(cmd);
    }

    /// Takes all pending commands, in order, leaving none.
    pub fn take(&mut self) -> (cmds: Vec<DrawCmd>)
        ensures
            cmds@ == old(self)@.pending,
            final(self)@ == (WindowStateView { pending: Seq::<DrawCmd>::empty(), ..old(self)@ }),
    {
        let mut cmds = Vec::with_capacity(1024);
        std::mem::swap(&mut cmds, &mut self.frame_buffer);
        cmds
    }

    /// The pending commands.
    pub fn pending(&self) -> (cmds: &Vec<DrawCmd>)
        ensures
            cmds@ == self@.pending,
    {
        &self.frame_buffer
    }
}

/// What a window is, seen from outside.
pub struct WindowView {
    pub color: Color,
    pub saved: Seq<Color>,
    pub width: Scalar,
    pub height: Scalar,
    pub pending: Seq<DrawCmd>,
}

impl WindowView {
    /// `c` becomes the colour in effect; the previous one is saved.
    pub open spec fn pushed_color(self, c: Color) -> WindowView {
        WindowView { color: c, saved: self.saved.push(self.color), ..self }
    }

    /// The most recently saved colour comes back into effect; with nothing
    /// saved, nothing changes.
    pub open spec fn pulled_color(self) -> WindowView {
        if self.saved.len() > 0 {
            WindowView { color: self.saved.last(), saved: self.saved.drop_last(), ..self }
        } else {
            self
        }
    }

    /// `cmd` is appended to the commands of the current frame.
    pub open spec fn drawn(self, cmd: DrawCmd) -> WindowView {
        WindowView { pending: self.pending.push(cmd), ..self }
    }

    /// The current frame has been handed over: no command is pending.
    pub open spec fn flushed(self) -> WindowView {
        WindowView { pending: Seq::<DrawCmd>::empty(), ..self }
    }
}

impl View for Window {
    type V = WindowView;

    open spec fn view(&self) -> WindowView {
        WindowView {
            color: self.color_stack,
            saved: self.state@.saved,
            width: self.width,
            height: self.height,
            pending: self.state@.pending,
        }
    }
}

impl Window {
    /// A window of the given logical size, drawing in white, with nothing
    /// saved and nothing drawn.
    pub fn new(size: Point) -> (w: Window)
        ensures
            w@ == (WindowView {
                color: spec_white(),
                saved: Seq::<Color>::empty(),
                width: size[0],
                height: size[1],
                pending: Seq::<DrawCmd>::empty(),
            }),
    {
        Window { color_stack: white(), width: size[0], height: size[1], state: WindowState::new() }
    }

    /// Queues a filled triangle in the colour in effect.
    pub fn draw_triangle(&mut self, p1: Point, p2: Point, p3: Point)
        ensures
            final(self)@ == old(self)@.drawn(
                DrawCmd::Triangle { verts: [p1, p2, p3], color: old(self).color_stack },
            ),
    {
        let color = self.color_stack;
        self.state.push(DrawCmd::Triangle { verts: [p1, p2, p3], color });
    }

    /// Queues a run of text whose top left corner is at `pos`, in the colour
    /// in effect.
    pub fn draw_text(&mut self, text: &str, pos: Point)
        ensures
            final(self)@ == old(self)@.drawn(final(self)@.pending.last()),
            final(self)@.pending.last() matches DrawCmd::Text { text: t, pos: p, color: c }
                && t@ == text@ && p == pos && c == old(self).color_stack,
    {
        let color = self.color_stack;
        let owned = text.to_string();
        proof {
            broadcast use vstd::string::to_string_from_display_ensures_for_str;
        }
        self.state.push(DrawCmd::Text { text: owned, pos, color });
    }

    /// Queues a line segment from `p1` to `p2` in the colour in effect.
    pub fn draw_line(&mut self, p1: Point, p2: Point)
        ensures
            final(self)@ == old(self)@.drawn(
                DrawCmd::Line { p1, p2, color: old(self).color_stack },
            ),
    {
        let color = self.color_stack;
        self.state.push(DrawCmd::Line { p1, p2, color });
    }

    /// Queues a cubic Bezier curve through the four control points in the
    /// colour in effect.
    pub fn draw_bezier(&mut self, p1: Point, p2: Point, p3: Point, p4: Point)
        ensures
            final(self)@ == old(self)@.drawn(
                DrawCmd::Bezier { p1, p2, p3, p4, color: old(self).color_stack },
            ),
    {
        let color = self.color_stack;
        self.state.push(DrawCmd::Bezier { p1, p2, p3, p4, color });
    }

    /// Puts `color` into effect and saves the colour it replaces.
    pub fn push_color_stack(&mut self, color: Color)
        ensures
            final(self)@ == old(self)@.pushed_color(color),
    {
        self.state.save_color(self.color_stack);
        self.color_stack = color;
    }

    /// Brings the most recently saved colour back into effect. With no colour
    /// saved, the colour in effect stays.
    pub fn pull_color_stack(&mut self)
        ensures
            final(self)@ == old(self)@.pulled_color(),
    {
        match self.state.restore_color() {
            Some(c) => {
                self.color_stack = c;
            },
            None => {},
        }
    }

    /// The window's current logical size, as the event loop last recorded it
    /// in the shared input state: `[width, height]`.
    pub fn get_size(&self, input: &InputState) -> (size: Point)
        ensures
            size == input.window_size,
    {
        input.window_size
    }

    /// Hands over the commands drawn since the last frame, in the order they
    /// were drawn, as one frame, and starts a new frame. When nothing was
    /// drawn there is no frame to hand over.
    pub fn take_frame(&mut self) -> (frame: Option<RenderCmd>)
        ensures
            final(self)@ == old(self)@.flushed(),
            final(self).color_stack == old(self).color_stack,
            final(self)@.saved == old(self)@.saved,
            final(self)@.pending.len() == 0,
            old(self)@.pending.len() == 0 ==> frame is None,
            old(self)@.pending.len() > 0 ==> (frame matches Some(RenderCmd::Frame(cmds))
                && cmds@ == old(self)@.pending),
    {
        if self.state.pending().len() == 0 {
            assert(self.state@.pending =~= Seq::<DrawCmd>::empty());
            None
        } else {
            let cmds = self.state.take();
            Some(RenderCmd::Frame(cmds))
        }
    }

    /// The commands drawn since the last frame.
    pub fn pending(&self) -> (cmds: &Vec<DrawCmd>)
        ensures
            cmds@ == self@.pending,
    {
        self.state.pending()
    }
}

/// Pulling a colour undoes pushing it: the colour in effect and the saved
/// colours are as before, and nothing else changes.
pub proof fn lemma_pull_undoes_push(w: WindowView, c: Color)
    ensures
        w.pushed_color(c).pulled_color() == w,
{
    assert(w.saved.push(w.color).drop_last() =~= w.saved);
}

/// A command drawn between pushing a colour and pulling it carries the
/// pushed colour, and afterwards the window is as if the command had been
/// drawn with the colour state untouched.
pub proof fn lemma_pushed_color_scopes_a_draw(w: WindowView, c: Color, cmd: DrawCmd)
    ensures
        w.pushed_color(c).color == c,
        w.pushed_color(c).drawn(cmd).pulled_color() == w.drawn(cmd),
{
    assert(w.saved.push(w.color).drop_last() =~= w.saved);
}

/// Drawing never changes the colour in effect, the saved colours or the size.
pub proof fn lemma_drawing_keeps_state(w: WindowView, cmd: DrawCmd)
    ensures
        w.drawn(cmd).color == w.color,
        w.drawn(cmd).saved == w.saved,
        w.drawn(cmd).width == w.width,
        w.drawn(cmd).height == w.height,
        w.drawn(cmd).pending.len() == w.pending.len() + 1,
        w.drawn(cmd).pending.last() == cmd,
{
}

/// Handing over a frame twice in a row hands over nothing the second time.
pub proof fn lemma_flush_idempotent(w: WindowView)
    ensures
        w.flushed().pending.len() == 0,
        w.flushed().flushed() == w.flushed(),
{
}

/// Handing over a frame empties the pending commands and nothing else: the
/// colour in effect, the saved colours and the size stay.
pub proof fn lemma_flush_keeps_state(w: WindowView)
    ensures
        w.flushed() == (WindowView {
            color: w.color,
            saved: w.saved,
            width: w.width,
            height: w.height,
            pending: Seq::<DrawCmd>::empty(),
        }),
{
}

/// Each colour-stack and drawing step, field by field: pushing puts the new
/// colour in effect and saves the old one on top; pulling with a colour saved
/// brings the top one back and drops it, and with none changes nothing;
/// drawing appends one command and changes nothing else.
pub proof fn lemma_window_step_effects(w: WindowView, c: Color, cmd: DrawCmd)
    ensures
        w.pushed_color(c) == (WindowView {
            color: c,
            saved: w.saved.push(w.color),
            width: w.width,
            height: w.height,
            pending: w.pending,
        }),
        w.saved.len() > 0 ==> w.pulled_color() == (WindowView {
            color: w.saved[w.saved.len() - 1],
            saved: w.saved.subrange(0, w.saved.len() - 1),
            width: w.width,
            height: w.height,
            pending: w.pending,
        }),
        w.saved.len() == 0 ==> w.pulled_color() == w,
        w.drawn(cmd) == (WindowView {
            color: w.color,
            saved: w.saved,
            width: w.width,
            height: w.height,
            pending: w.pending.push(cmd),
        }),
{
}

} // verus!
