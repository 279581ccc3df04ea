//! The contract of input injection, and the errors of input back-ends.

use vstd::prelude::*;

use crate::control::follower::InjectorCommand;
use crate::protocol::message::{Modifiers, MouseButton};
use crate::text::joined;

verus! {

/// Errors that can occur during input operations.
#[derive(Debug)]
pub enum InputError {
    PermissionDenied(String),
    DeviceNotFound(String),
    Platform(String),
    NotSupported,
    AlreadyStarted,
    NotStarted,
    /// A device failed; the text is the cause.
    Io(String),
}

impl InputError {
    /// The error in words.
    pub open spec fn spec_message(&self) -> Seq<char> {
        match *self {
            InputError::PermissionDenied(what) => "Permission denied: "@ + what@,
            InputError::DeviceNotFound(what) => "Device not found: "@ + what@,
            InputError::Platform(what) => "Platform error: "@ + what@,
            InputError::NotSupported => "Not supported on this platform"@,
            InputError::AlreadyStarted => "Input capture already started"@,
            InputError::NotStarted => "Input capture not started"@,
            InputError::Io(cause) => "IO error: "@ + cause@,
        }
    }

    /// The error in words.
    pub fn message(&self) -> (text: String)
        ensures
            text@ == self.spec_message(),
    {
        match self {
            InputError::PermissionDenied(what) => joined("Permission denied: ", what.as_str()),
            InputError::DeviceNotFound(what) => joined("Device not found: ", what.as_str()),
            InputError::Platform(what) => joined("Platform error: ", what.as_str()),
            InputError::NotSupported => String::from_str("Not supported on this platform"),
            InputError::AlreadyStarted => String::from_str("Input capture already started"),
            InputError::NotStarted => String::from_str("Input capture not started"),
            InputError::Io(cause) => joined("IO error: ", cause.as_str()),
        }
    }
}

pub type InputResult<T> = Result<T, InputError>;

/// Whether a run of steps through `text`, one character at a time, can
/// lead from `before` to `after` with the result `result`: each character
/// in turn is taken in the state that the character before it left; the
/// first failure ends the run and is the result; the run succeeds where
/// every step did.
pub open spec fn run_through<T: ?Sized>(
    step: spec_fn(&T, char, &T, InputResult<()>) -> bool,
    before: &T,
    text: Seq<char>,
    after: &T,
    result: InputResult<()>,
) -> bool
    decreases text.len(),
{
    if text.len() == 0 {
        after == before && result == Ok::<(), InputError>(())
    } else {
        exists|mid: &T, first: InputResult<()>| #[trigger]
            step(before, text[0], mid, first) && (if first is Ok {
                run_through(step, mid, text.skip(1), after, result)
            } else {
                after == mid && result == first
            })
    }
}

/// A run through no text changes nothing and succeeds.
pub proof fn lemma_run_through_nothing<T: ?Sized>(
    step: spec_fn(&T, char, &T, InputResult<()>) -> bool,
    state: &T,
    text: Seq<char>,
)
    requires
        text.len() == 0,
    ensures
        run_through(step, state, text, state, Ok::<(), InputError>(())),
{
}

/// Something that a back-end is asked to put into the local system.
pub enum Injected {
    /// What a command stands for.
    Command(InjectorCommand),
    /// A character to type.
    Typed(char),
}

/// Injection of input events into the local system. A platform back-end
/// implements it; keycodes are USB HID usage codes, which the back-end
/// maps to its own.
///
/// Every call asks the back-end to inject one input. What that does is
/// the back-end's to say, through `injects`, over what it shows of its
/// state through `seen`; a back-end that says nothing allows every
/// outcome.
pub trait InputInjector {
    /// What the back-end shows of its state to the contracts, as a list
    /// of inputs; a back-end that says nothing shows an empty list.
    open spec fn seen(&self) -> Seq<Injected> {
        Seq::empty()
    }

    /// Whether the back-end, asked in this state to inject `input`, can
    /// answer `result` and show `after` of its state afterwards.
    open spec fn injects(&self, input: Injected, after: Seq<Injected>, result: InputResult<()>) -> bool {
        true
    }

    /// Initialize the injector.
    fn init(&mut self) -> InputResult<()>;

    /// Shutdown the injector.
    fn shutdown(&mut self) -> InputResult<()>;

    /// Move the mouse by a relative amount.
    fn mouse_move_relative(&mut self, dx: i32, dy: i32) -> (result: InputResult<()>)
        ensures
            old(self).injects(
                Injected::Command(InjectorCommand::MouseMoveRelative { dx, dy }),
                final(self).seen(),
                result,
            ),
    ;

    /// Move the mouse to an absolute position.
    fn mouse_move_absolute(&mut self, x: i32, y: i32) -> (result: InputResult<()>)
        ensures
            old(self).injects(
                Injected::Command(InjectorCommand::MouseMoveAbsolute { x, y }),
                final(self).seen(),
                result,
            ),
    ;

    /// Press or release a mouse button.
    fn mouse_button(&mut self, button: MouseButton, pressed: bool) -> (result: InputResult<()>)
        ensures
            old(self).injects(
                Injected::Command(InjectorCommand::MouseButton { button, pressed }),
                final(self).seen(),
                result,
            ),
    ;

    /// Scroll the mouse wheel.
    fn mouse_scroll(&mut self, dx: i32, dy: i32) -> (result: InputResult<()>)
        ensures
            old(self).injects(
                Injected::Command(InjectorCommand::MouseScroll { dx, dy }),
                final(self).seen(),
                result,
            ),
    ;

    /// Press a key.
    fn key_down(&mut self, keycode: u32, modifiers: Modifiers) -> (result: InputResult<()>)
        ensures
            old(self).injects(
                Injected::Command(InjectorCommand::KeyDown { keycode, modifiers }),
                final(self).seen(),
                result,
            ),
    ;

    /// Release a key.
    fn key_up(&mut self, keycode: u32, modifiers: Modifiers) -> (result: InputResult<()>)
        ensures
            old(self).injects(
                Injected::Command(InjectorCommand::KeyUp { keycode, modifiers }),
                final(self).seen(),
                result,
            ),
    ;

    /// Type a character (handles shift automatically).
    fn type_char(&mut self, c: char) -> (result: InputResult<()>)
        ensures
            old(self).injects(Injected::Typed(c), final(self).seen(), result),
    ;

    /// Type a string: each character in turn through `type_char`, up to
    /// the first for which it fails, whose error is the result. What
    /// typing a character does is the back-end's business.
    fn type_string(&mut self, s: &str) -> (result: InputResult<()>)
        ensures
            run_through(
                |before: &Self, c: char, after: &Self, outcome: InputResult<()>|
                    before.injects(Injected::Typed(c), after.seen(), outcome),
                &*old(self),
                s@,
                &*final(self),
                result,
            ),
            s@.len() == 0 ==> result is Ok,
    {
        let ghost step = |before: &Self, c: char, after: &Self, outcome: InputResult<()>|
            before.injects(Injected::Typed(c), after.seen(), outcome);
        let count: usize = s.unicode_len();
        let mut i: usize = 0;
        assert(s@.skip(0) =~= s@);
        while i < count
            invariant
                count == s@.len(),
                i <= count,
                step == (|before: &Self, c: char, after: &Self, outcome: InputResult<()>|
                    before.injects(Injected::Typed(c), after.seen(), outcome)),
                forall|after: &Self, outcome: InputResult<()>| #[trigger]
                    run_through(step, &*self, s@.skip(i as int), after, outcome) ==> run_through(
                        step,
                        &*old(self),
                        s@,
                        after,
                        outcome,
                    ),
            decreases count - i,
        {
            let ghost here = &*self;
            let ghost rest = s@.skip(i as int);
            assert(rest.len() > 0 && rest[0] == s@[i as int]);
            assert(rest.skip(1) =~= s@.skip(i + 1));
            let typed = self.type_char(s.get_char(i));
            assert(step(here, rest[0], &*self, typed));
            match typed {
                Ok(()) => {
                    assert forall|after: &Self, outcome: InputResult<()>| #[trigger]
                        run_through(step, &*self, s@.skip(i + 1), after, outcome) implies run_through(
                        step,
                        &*old(self),
                        s@,
                        after,
                        outcome,
                    ) by {
                        assert(run_through(step, here, rest, after, outcome));
                    }
                },
                Err(error) => {
                    assert(run_through(step, here, rest, &*self, typed));
                    return Err(error);
                },
            }
            i += 1;
        }
        let ghost end = &*self;
        let ghost nothing = s@.skip(i as int);
        assert(nothing.len() == 0);
        proof {
            lemma_run_through_nothing(step, end, nothing);
        }
        Ok(())
    }
}

/// Make the call on the injector that a command stands for: the back-end
/// is asked to inject what the command stands for, and the result is the
/// back-end's.
pub fn inject<I: InputInjector + ?Sized>(injector: &mut I, command: InjectorCommand) -> (result: InputResult<
    (),
>)
    ensures
        old(injector).injects(Injected::Command(command), final(injector).seen(), result),
{
    match command {
        InjectorCommand::MouseMoveRelative { dx, dy } => injector.mouse_move_relative(dx, dy),
        InjectorCommand::MouseMoveAbsolute { x, y } => injector.mouse_move_absolute(x, y),
        InjectorCommand::MouseButton { button, pressed } => injector.mouse_button(button, pressed),
        InjectorCommand::MouseScroll { dx, dy } => injector.mouse_scroll(dx, dy),
        InjectorCommand::KeyDown { keycode, modifiers } => injector.key_down(keycode, modifiers),
        InjectorCommand::KeyUp { keycode, modifiers } => injector.key_up(keycode, modifiers),
    }
}

} // verus!
