use corenet::control::InjectorCommand;
use corenet::input::{inject, InputError, InputInjector, InputResult};
use corenet::protocol::{Modifiers, MouseButton};

/// An injector that records what it is asked to do, and fails on one
/// character.
struct Recorder {
    calls: Vec<String>,
    fail_on: Option<char>,
}

impl InputInjector for Recorder {
    fn init(&mut self) -> InputResult<()> {
        Ok(())
    }

    fn shutdown(&mut self) -> InputResult<()> {
        Ok(())
    }

    fn mouse_move_relative(&mut self, dx: i32, dy: i32) -> InputResult<()> {
        self.calls.push(format!("rel {} {}", dx, dy));
        Ok(())
    }

    fn mouse_move_absolute(&mut self, x: i32, y: i32) -> InputResult<()> {
        self.calls.push(format!("abs {} {}", x, y));
        Ok(())
    }

    fn mouse_button(&mut self, button: MouseButton, pressed: bool) -> InputResult<()> {
        self.calls.push(format!("button {} {}", button.code(), pressed));
        Ok(())
    }

    fn mouse_scroll(&mut self, dx: i32, dy: i32) -> InputResult<()> {
        self.calls.push(format!("scroll {} {}", dx, dy));
        Ok(())
    }

    fn key_down(&mut self, keycode: u32, modifiers: Modifiers) -> InputResult<()> {
        self.calls.push(format!("down {} {}", keycode, modifiers.to_bits()));
        Ok(())
    }

    fn key_up(&mut self, keycode: u32, modifiers: Modifiers) -> InputResult<()> {
        self.calls.push(format!("up {} {}", keycode, modifiers.to_bits()));
        Ok(())
    }

    fn type_char(&mut self, c: char) -> InputResult<()> {
        if self.fail_on == Some(c) {
            return Err(InputError::NotSupported);
        }
        self.calls.push(format!("char {}", c));
        Ok(())
    }
}

#[test]
fn test_type_string_types_every_character() {
    let mut recorder = Recorder { calls: Vec::new(), fail_on: None };
    assert!(recorder.type_string("héllo").is_ok());
    assert_eq!(recorder.calls, vec!["char h", "char é", "char l", "char l", "char o"]);
}

#[test]
fn test_type_string_stops_at_first_failure() {
    let mut recorder = Recorder { calls: Vec::new(), fail_on: Some('l') };
    let result = recorder.type_string("hello");
    assert!(matches!(result, Err(InputError::NotSupported)));
    assert_eq!(recorder.calls, vec!["char h", "char e"]);
}

#[test]
fn test_inject_dispatches_each_command() {
    let mut recorder = Recorder { calls: Vec::new(), fail_on: None };
    let shift = Modifiers::from_bits(1);
    inject(&mut recorder, InjectorCommand::MouseMoveRelative { dx: -5, dy: 7 }).unwrap();
    inject(&mut recorder, InjectorCommand::MouseMoveAbsolute { x: 10, y: 20 }).unwrap();
    inject(&mut recorder, InjectorCommand::MouseButton { button: MouseButton::Middle, pressed: true })
        .unwrap();
    inject(&mut recorder, InjectorCommand::MouseScroll { dx: 0, dy: -3 }).unwrap();
    inject(&mut recorder, InjectorCommand::KeyDown { keycode: 4, modifiers: shift }).unwrap();
    inject(&mut recorder, InjectorCommand::KeyUp { keycode: 4, modifiers: shift }).unwrap();
    assert_eq!(
        recorder.calls,
        vec!["rel -5 7", "abs 10 20", "button 2 true", "scroll 0 -3", "down 4 1", "up 4 1"]
    );
}
