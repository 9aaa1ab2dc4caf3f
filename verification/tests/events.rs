use my_graphics::commands::{DrawCmd, InputState, Point, RenderCmd};
use my_graphics::events::{handle_event, LoopAction, LoopEvent, WindowEvent};

fn pt(x: f32, y: f32) -> Point {
    [x.to_bits(), y.to_bits()]
}

#[test]
fn new_input_state() {
    let input = InputState::new(pt(800.0, 600.0));
    assert_eq!(input.get_mouse_pos(), pt(0.0, 0.0));
    assert_eq!(input.window_size, pt(800.0, 600.0));
    assert_eq!(input.mouse_down, [false; 5]);
    assert!(!input.is_key_down(7));
    let d = InputState::default();
    assert_eq!(d.window_size, pt(0.0, 0.0));
    assert!(d.keys_down.is_empty());
}

#[test]
fn keys_go_down_and_up() {
    let mut input = InputState::new(pt(800.0, 600.0));
    let a = handle_event(&mut input, LoopEvent::Window(WindowEvent::KeyPressed { key: 3 }));
    assert!(matches!(a, LoopAction::Continue));
    assert!(input.is_key_down(3));
    assert!(!input.is_key_down(4));
    handle_event(&mut input, LoopEvent::Window(WindowEvent::KeyPressed { key: 4 }));
    handle_event(&mut input, LoopEvent::Window(WindowEvent::KeyReleased { key: 3 }));
    assert!(!input.is_key_down(3));
    assert!(input.is_key_down(4));
    // Releasing a key that is up changes nothing.
    handle_event(&mut input, LoopEvent::Window(WindowEvent::KeyReleased { key: 9 }));
    assert_eq!(input.keys_down.len(), 1);
}

#[test]
fn cursor_and_resize_update_state() {
    let mut input = InputState::new(pt(800.0, 600.0));
    let a = handle_event(
        &mut input,
        LoopEvent::Window(WindowEvent::CursorMoved { position: pt(12.5, 40.0) }),
    );
    assert!(matches!(a, LoopAction::Continue));
    assert_eq!(input.get_mouse_pos(), pt(12.5, 40.0));
    let a = handle_event(
        &mut input,
        LoopEvent::Window(WindowEvent::Resized { logical_size: pt(1024.0, 768.0) }),
    );
    assert!(matches!(a, LoopAction::ResizeSurface));
    assert_eq!(input.window_size, pt(1024.0, 768.0));
    assert_eq!(input.get_mouse_pos(), pt(12.5, 40.0));
}

#[test]
fn loop_actions() {
    let mut input = InputState::new(pt(800.0, 600.0));
    assert!(matches!(
        handle_event(&mut input, LoopEvent::Window(WindowEvent::CloseRequested)),
        LoopAction::Exit
    ));
    assert!(matches!(
        handle_event(&mut input, LoopEvent::Window(WindowEvent::RedrawRequested)),
        LoopAction::Render
    ));
    assert!(matches!(
        handle_event(&mut input, LoopEvent::Window(WindowEvent::Other)),
        LoopAction::Continue
    ));
    assert!(matches!(
        handle_event(&mut input, LoopEvent::Command(RenderCmd::Close)),
        LoopAction::Exit
    ));
    let frame = vec![DrawCmd::Line { p1: pt(0.0, 0.0), p2: pt(1.0, 1.0), color: [0; 4] }];
    match handle_event(&mut input, LoopEvent::Command(RenderCmd::Frame(frame))) {
        LoopAction::ShowFrame(cmds) => {
            assert_eq!(cmds.len(), 1);
            assert!(matches!(cmds[0], DrawCmd::Line { .. }));
        }
        _ => panic!("Expected ShowFrame"),
    }
    assert!(input.keys_down.is_empty());
    assert_eq!(input.get_mouse_pos(), pt(0.0, 0.0));
}
