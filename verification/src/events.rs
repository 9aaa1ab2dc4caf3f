use crate::commands::{DrawCmd, InputState, InputView, KeyId, Point, RenderCmd};
use vstd::prelude::*;

verus! {

/// What the window reports to the event loop, with positions and sizes
/// already in logical pixels.
pub enum WindowEvent {
    /// The user asked to close the window.
    CloseRequested,
    /// The window's logical size changed, by a resize or by a change of the
    /// display's scale factor.
    Resized { logical_size: Point },
    /// The mouse moved to `position`.
    CursorMoved { position: Point },
    /// A key with a known physical code went down.
    KeyPressed { key: KeyId },
    /// A key with a known physical code went up.
    KeyReleased { key: KeyId },
    /// The window is ready to be drawn.
    RedrawRequested,
    /// Anything else.
    Other,
}

/// One thing the event loop reacts to: an event of the window, or a command
/// from the drawing thread, which the loop drains whenever it is about to
/// wait.
pub enum LoopEvent {
    Window(WindowEvent),
    Command(RenderCmd),
}

/// What the event loop does in answer.
pub enum LoopAction {
    /// Leave the loop and close the window.
    Exit,
    /// Reconfigure the drawing surface to the window's new size.
    ResizeSurface,
    /// Render the frame on show.
    Render,
    /// Put this frame on show and ask the window for a redraw.
    ShowFrame(Vec<DrawCmd>),
    /// Nothing beyond the update of the input state.
    Continue,
}

/// The input state after `event`.
pub open spec fn next_input(v: InputView, event: LoopEvent) -> InputView {
    match event {
        LoopEvent::Window(WindowEvent::Resized { logical_size }) => InputView {
            window_size: logical_size,
            ..v
        },
        LoopEvent::Window(WindowEvent::CursorMoved { position }) => InputView {
            mouse_pos: position,
            ..v
        },
        LoopEvent::Window(WindowEvent::KeyPressed { key }) => InputView {
            keys_down: v.keys_down.insert(key),
            ..v
        },
        LoopEvent::Window(WindowEvent::KeyReleased { key }) => InputView {
            keys_down: v.keys_down.remove(key),
            ..v
        },
        _ => v,
    }
}

/// Updates the input state for `event` and says what the event loop does
/// next.
pub fn handle_event(input: &mut InputState, event: LoopEvent) -> (action: LoopAction)
    ensures
        final(input)@ == next_input(old(input)@, event),
        match event {
            LoopEvent::Window(WindowEvent::CloseRequested) => action is Exit,
            LoopEvent::Window(WindowEvent::Resized { .. }) => action is ResizeSurface,
            LoopEvent::Window(WindowEvent::RedrawRequested) => action is Render,
            LoopEvent::Command(RenderCmd::Frame(cmds)) => action matches LoopAction::ShowFrame(
                frame,
            ) && frame == cmds,
            LoopEvent::Command(RenderCmd::Close) => action is Exit,
            _ => action is Continue,
        },
{
    broadcast use vstd::std_specs::hash::group_hash_axioms;

    match event {
        LoopEvent::Window(w) => match w {
            WindowEvent::CloseRequested => LoopAction::Exit,
            WindowEvent::Resized { logical_size } => {
                input.window_size = logical_size;
                LoopAction::ResizeSurface
            },
            WindowEvent::CursorMoved { position } => {
                input.mouse_pos = position;
                LoopAction::Continue
            },
            WindowEvent::KeyPressed { key } => {
                input.keys_down.insert(key);
                LoopAction::Continue
            },
            WindowEvent::KeyReleased { key } => {
                input.keys_down.remove(&key);
                LoopAction::Continue
            },
            WindowEvent::RedrawRequested => LoopAction::Render,
            WindowEvent::Other => LoopAction::Continue,
        },
        LoopEvent::Command(cmd) => match cmd {
            RenderCmd::Frame(cmds) => LoopAction::ShowFrame(cmds),
            RenderCmd::Close => LoopAction::Exit,
        },
    }
}

/// A key reads as down right after it goes down and as up right after it
/// goes up; no other key changes.
pub proof fn lemma_key_events(v: InputView, key: KeyId, other: KeyId)
    requires
        other != key,
    ensures
        next_input(v, LoopEvent::Window(WindowEvent::KeyPressed { key })).keys_down.contains(key),
        !next_input(v, LoopEvent::Window(WindowEvent::KeyReleased { key })).keys_down.contains(
            key,
        ),
        next_input(v, LoopEvent::Window(WindowEvent::KeyPressed { key })).keys_down.contains(other)
            == v.keys_down.contains(other),
        next_input(v, LoopEvent::Window(WindowEvent::KeyReleased { key })).keys_down.contains(
            other,
        ) == v.keys_down.contains(other),
{
}

/// Pressing a key that was up and releasing it again leaves the input state
/// as it was.
pub proof fn lemma_release_undoes_press(v: InputView, key: KeyId)
    requires
        !v.keys_down.contains(key),
    ensures
        next_input(
            next_input(v, LoopEvent::Window(WindowEvent::KeyPressed { key })),
            LoopEvent::Window(WindowEvent::KeyReleased { key }),
        ) == v,
{
    assert(v.keys_down.insert(key).remove(key) =~= v.keys_down);
}

/// The mouse position reads back as the last position the cursor moved to,
/// and the window size as the last size reported.
pub proof fn lemma_pointer_and_size(v: InputView, position: Point, size: Point)
    ensures
        next_input(v, LoopEvent::Window(WindowEvent::CursorMoved { position })).mouse_pos
            == position,
        next_input(v, LoopEvent::Window(WindowEvent::Resized { logical_size: size })).window_size
            == size,
{
}

/// Commands from the drawing thread, and window events other than input,
/// leave the input state as it is.
pub proof fn lemma_commands_keep_input(v: InputView, cmd: RenderCmd)
    ensures
        next_input(v, LoopEvent::Command(cmd)) == v,
        next_input(v, LoopEvent::Window(WindowEvent::CloseRequested)) == v,
        next_input(v, LoopEvent::Window(WindowEvent::RedrawRequested)) == v,
        next_input(v, LoopEvent::Window(WindowEvent::Other)) == v,
{
}

/// What each input event does to the input state, field by field: a resize
/// sets only the window size, a cursor move only the mouse position, a key
/// press adds only that key to the keys held down and a key release removes
/// only that key; nothing else touches the state.
pub proof fn lemma_input_event_effects(v: InputView, size: Point, position: Point, key: KeyId)
    ensures
        next_input(v, LoopEvent::Window(WindowEvent::Resized { logical_size: size }))
            == (InputView {
            mouse_pos: v.mouse_pos,
            keys_down: v.keys_down,
            mouse_down: v.mouse_down,
            window_size: size,
        }),
        next_input(v, LoopEvent::Window(WindowEvent::CursorMoved { position }))
            == (InputView {
            mouse_pos: position,
            keys_down: v.keys_down,
            mouse_down: v.mouse_down,
            window_size: v.window_size,
        }),
        next_input(v, LoopEvent::Window(WindowEvent::KeyPressed { key })) == (InputView {
            mouse_pos: v.mouse_pos,
            keys_down: v.keys_down.insert(key),
            mouse_down: v.mouse_down,
            window_size: v.window_size,
        }),
        next_input(v, LoopEvent::Window(WindowEvent::KeyReleased { key })) == (InputView {
            mouse_pos: v.mouse_pos,
            keys_down: v.keys_down.remove(key),
            mouse_down: v.mouse_down,
            window_size: v.window_size,
        }),
{
}

/// A key held down stays down through any event but its own release, and a
/// key that is up stays up through any event but its own press.
pub proof fn lemma_keys_change_only_by_key_events(v: InputView, event: LoopEvent, k: KeyId)
    ensures
        event != LoopEvent::Window(WindowEvent::KeyReleased { key: k }) && v.keys_down.contains(k)
            ==> next_input(v, event).keys_down.contains(k),
        event != LoopEvent::Window(WindowEvent::KeyPressed { key: k }) && !v.keys_down.contains(k)
            ==> !next_input(v, event).keys_down.contains(k),
{
}

} // verus!
