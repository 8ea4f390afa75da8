use std::cell::Cell;
use std::rc::Rc;

use shared_lib::gl_blend_guard;
use shared_lib::gl_enums;
use shared_lib::gl_types::RenderMask;
use shared_lib::gl_utils::{check_gl_error, gl_enum_size, gl_error_name};
use shared_lib::opengl::blend_guard::{BlendCallback, BlendCommand, BlendGuard, SeparateBlend};
use shared_lib::sdl_window::{
    clear_mask, mouse_in_window, SdlKeyboardState, LALTMOD, LCTRLMOD, LSHIFTMOD, RALTMOD, RCTRLMOD, RSHIFTMOD,
};

#[test]
fn gl_error_names() {
    assert_eq!(gl_error_name(gl::INVALID_ENUM), "INVALID_ENUM");
    assert_eq!(gl_error_name(gl::INVALID_VALUE), "INVALID_VALUE");
    assert_eq!(gl_error_name(gl::INVALID_OPERATION), "INVALID_OPERATION");
    assert_eq!(gl_error_name(gl::INVALID_FRAMEBUFFER_OPERATION), "INVALID_FRAMEBUFFER_OPERATION");
    assert_eq!(gl_error_name(gl::STACK_OVERFLOW), "STACK_OVERFLOW");
    assert_eq!(gl_error_name(gl::STACK_UNDERFLOW), "STACK_UNDERFLOW");
    assert_eq!(gl_error_name(gl::OUT_OF_MEMORY), "OUT_OF_MEMORY");
    assert_eq!(gl_error_name(0x1234), "UNKNOWN_ERROR");
}

#[test]
fn gl_error_reports() {
    assert!(check_gl_error(&[]).is_ok());
    assert_eq!(check_gl_error(&[gl::INVALID_ENUM]).err().unwrap(), "OpenGL error [1280]: INVALID_ENUM");
    assert_eq!(
        check_gl_error(&[gl::INVALID_VALUE, gl::OUT_OF_MEMORY, 7]).err().unwrap(),
        "OpenGL error [1281]: INVALID_VALUE, OpenGL error [1285]: OUT_OF_MEMORY, OpenGL error [7]: UNKNOWN_ERROR"
    );
}

#[test]
fn gl_scalar_sizes() {
    assert_eq!(gl_enum_size(gl::BYTE), std::mem::size_of::<i8>());
    assert_eq!(gl_enum_size(gl::UNSIGNED_BYTE), std::mem::size_of::<u8>());
    assert_eq!(gl_enum_size(gl::SHORT), std::mem::size_of::<i16>());
    assert_eq!(gl_enum_size(gl::UNSIGNED_SHORT), std::mem::size_of::<u16>());
    assert_eq!(gl_enum_size(gl::INT), std::mem::size_of::<i32>());
    assert_eq!(gl_enum_size(gl::UNSIGNED_INT), std::mem::size_of::<u32>());
    assert_eq!(gl_enum_size(gl::FLOAT), std::mem::size_of::<f32>());
}

#[test]
fn keyboard_state_tracks_key_transitions() {
    let a = 'a' as i32;
    let b = 'b' as i32;
    let c = 'c' as i32;
    let mut state = SdlKeyboardState::new(vec![a], 0);
    assert!(state.is_key_down(a));
    assert!(state.is_key_pressed_repeat(a));
    assert!(!state.is_key_pressed(a));
    assert!(state.is_key_up(b));

    state.update(vec![a, b], LSHIFTMOD);
    assert!(state.is_key_pressed(a));
    assert!(state.is_key_pressed(b));
    assert!(state.is_shift_pressed());
    assert!(!state.is_control_pressed());

    state.update(vec![b, c], RCTRLMOD | LALTMOD);
    assert!(!state.is_key_pressed(b));
    assert!(state.is_key_down(b));
    assert!(state.is_key_pressed(c));
    assert!(state.is_key_released(a));
    assert!(state.is_key_up(a));
    assert!(!state.is_key_released(b));
    assert!(!state.is_shift_pressed());
    assert!(state.is_control_pressed());
    assert!(state.is_alt_pressed());

    state.update(vec![], 0);
    assert!(state.is_key_released(b));
    assert!(state.is_key_released(c));
    assert!(!state.is_key_pressed(c));
    assert!(!state.is_alt_pressed());

    state.update(vec![c], RSHIFTMOD | RALTMOD | LCTRLMOD);
    assert!(state.is_shift_pressed() && state.is_alt_pressed() && state.is_control_pressed());
}

#[test]
fn default_keyboard_state_is_empty() {
    let state = SdlKeyboardState::default();
    let a = 'a' as i32;
    assert!(state.is_key_up(a));
    assert!(!state.is_key_pressed(a));
    assert!(!state.is_key_released(a));
    assert!(!state.is_shift_pressed());
}

#[test]
fn clear_masks() {
    assert_eq!(clear_mask(None), gl::COLOR_BUFFER_BIT | gl::DEPTH_BUFFER_BIT | gl::STENCIL_BUFFER_BIT);
    assert_eq!(clear_mask(Some(RenderMask::default().color())), gl::COLOR_BUFFER_BIT);
    assert_eq!(
        clear_mask(Some(RenderMask::default().depth_and_stencil())),
        gl::DEPTH_BUFFER_BIT | gl::STENCIL_BUFFER_BIT
    );
}

#[test]
fn mouse_focus() {
    assert!(mouse_in_window(Some(3), 3));
    assert!(!mouse_in_window(Some(4), 3));
    assert!(!mouse_in_window(None, 3));
}

struct Veto(Rc<Cell<u32>>, bool);

impl BlendCallback for Veto {
    fn allow(&self, _enable: bool) -> bool {
        self.0.set(self.0.get() + 1);
        self.1
    }
}

#[test]
fn blend_guard_commands() {
    let mut guard = BlendGuard::new(false, gl_enums::SRC_ALPHA, gl_enums::ONE_MINUS_SRC_ALPHA);
    assert_eq!(guard.get_blend_func(), (gl::SRC_ALPHA, gl::ONE_MINUS_SRC_ALPHA));
    assert_eq!(
        guard.enable(),
        Some(BlendCommand::Enable { src: gl::SRC_ALPHA, dest: gl::ONE_MINUS_SRC_ALPHA, separate: None })
    );
    assert_eq!(guard.disable(), Some(BlendCommand::Disable));
    assert_eq!(guard.drop_command(), Some(BlendCommand::Disable));

    let separate = SeparateBlend::new(gl::ONE, gl::ZERO, gl::SRC_ALPHA, gl::ONE);
    assert!(guard.set_separate_blend_func(Some(separate)).is_ok());
    assert_eq!(
        guard.set_blend_func_immediate(&[], gl::ONE, gl::ZERO).ok().unwrap(),
        BlendCommand::SetFunc { src: gl::ONE, dest: gl::ZERO, separate: Some(separate) }
    );
    assert_eq!(guard.enable(), Some(BlendCommand::Enable { src: gl::ONE, dest: gl::ZERO, separate: Some(separate) }));

    assert_eq!(
        guard.set_blend_func(&[gl::INVALID_ENUM], gl::SRC_ALPHA, gl::ONE).err().unwrap(),
        "OpenGL error [1280]: INVALID_ENUM"
    );
    assert_eq!(guard.get_blend_func(), (gl::ONE, gl::ZERO));

    guard.enabled = false;
    assert_eq!(guard.enable(), None);
    assert_eq!(guard.disable(), None);
    assert_eq!(guard.drop_command(), None);
}

#[test]
fn blend_guard_callback_vetoes() {
    let calls = Rc::new(Cell::new(0));
    let mut guard = BlendGuard::new(false, gl::SRC_ALPHA, gl::ONE);
    guard.set_callback(Box::new(Veto(calls.clone(), false)));
    assert_eq!(guard.enable(), None);
    assert_eq!(guard.disable(), None);
    assert_eq!(calls.get(), 2);
    guard.clear_callback();
    assert_eq!(guard.disable(), Some(BlendCommand::Disable));

    let kept = BlendGuard::new(true, gl::SRC_ALPHA, gl::ONE);
    assert_eq!(kept.drop_command(), None);
}

#[test]
fn simple_blend_guard_restores() {
    assert!(gl_blend_guard::BlendGuard::new(false).disables_on_drop());
    assert!(!gl_blend_guard::BlendGuard::new(true).disables_on_drop());
}
