//! The follower: the secondary host's side of control transfer.
//!
//! While the primary host has handed it control, the follower injects the
//! input that arrives, tracks where its cursor is, and hands control back
//! when the cursor crosses the edge by which it came.

use vstd::prelude::*;

use crate::protocol::message::{Message, Modifiers, MouseButton, ScreenEdge};
use crate::screen::edge_detector::{DetectorView, EdgeDetectResult, EdgeDetector, EdgeDetectorConfig};
use crate::screen::{denormalize_edge_position, spec_denormalize_edge_position, EdgePosition};

verus! {

/// The follower's view of control.
#[derive(Debug, Clone, Copy, PartialEq, Eq, Structural)]
pub struct FollowerControlState {
    /// Whether this host has control.
    pub has_control: bool,
    /// The edge by which the cursor entered.
    pub entry_edge: ScreenEdge,
    /// Where the cursor is.
    pub cursor_x: i32,
    pub cursor_y: i32,
}

/// A call of the platform's input injector.
#[derive(Debug, Clone, Copy, PartialEq, Eq, Structural)]
pub enum InjectorCommand {
    MouseMoveRelative { dx: i32, dy: i32 },
    MouseMoveAbsolute { x: i32, y: i32 },
    MouseButton { button: MouseButton, pressed: bool },
    MouseScroll { dx: i32, dy: i32 },
    /// The keycode is a USB HID usage code.
    KeyDown { keycode: u32, modifiers: Modifiers },
    KeyUp { keycode: u32, modifiers: Modifiers },
}

/// What the follower asks of its caller.
#[derive(Debug)]
pub enum FollowerAction {
    /// Make the call on the input injector; a failure is logged and
    /// nothing more.
    Inject(InjectorCommand),
    /// Send the message to the primary host.
    Send(Message),
    /// Tell the user that the cursor has entered from the primary host.
    CursorEntered,
    /// Tell the user that the cursor has gone back to the primary host.
    CursorReturned,
}

/// The follower as plain values.
pub struct FollowerView {
    pub detector: DetectorView,
    pub control: FollowerControlState,
}

/// A coordinate held to the pixels of a screen `extent` pixels wide: from
/// 0 to `extent - 1`, no further than the largest coordinate, and 0 on a
/// screen without pixels.
pub open spec fn spec_clamp_to_screen(coord: int, extent: u32) -> int {
    let last = if extent - 1 > i32::MAX {
        i32::MAX as int
    } else {
        extent - 1
    };
    if coord <= 0 || extent == 0 {
        0
    } else if coord >= last {
        last
    } else {
        coord
    }
}

fn clamp_to_screen(coord: i64, extent: u32) -> (clamped: i32)
    ensures
        clamped == spec_clamp_to_screen(coord as int, extent),
        0 <= clamped,
{
    if coord <= 0 || extent == 0 {
        0
    } else {
        let last: i32 = if extent - 1 > i32::MAX as u32 {
            i32::MAX
        } else {
            (extent - 1) as i32
        };
        if coord >= last as i64 {
            last
        } else {
            coord as i32
        }
    }
}

/// The call on the injector that forwards an input message, if it is one
/// that is forwarded as it stands.
pub open spec fn spec_forwarded(message: Message) -> Option<InjectorCommand> {
    match message {
        Message::MouseMoveAbsolute { x, y } => Some(InjectorCommand::MouseMoveAbsolute { x, y }),
        Message::MouseButton { button, pressed } => Some(
            InjectorCommand::MouseButton { button, pressed },
        ),
        Message::MouseScroll { dx, dy } => Some(InjectorCommand::MouseScroll { dx, dy }),
        Message::KeyDown { keycode, modifiers, .. } => Some(
            InjectorCommand::KeyDown { keycode, modifiers },
        ),
        Message::KeyUp { keycode, modifiers } => Some(InjectorCommand::KeyUp { keycode, modifiers }),
        _ => None,
    }
}

impl FollowerView {
    /// The cursor enters by `edge` at `position`: it is placed there, this
    /// host has control, and edge detection starts afresh.
    pub open spec fn enter(self, edge: ScreenEdge, position: EdgePosition) -> (
        FollowerView,
        Seq<FollowerAction>,
    ) {
        let at = spec_denormalize_edge_position(
            edge,
            position,
            self.detector.width,
            self.detector.height,
        );
        (
            FollowerView {
                detector: self.detector.cleared(),
                control: FollowerControlState {
                    has_control: true,
                    entry_edge: edge,
                    cursor_x: at.0 as i32,
                    cursor_y: at.1 as i32,
                },
            },
            seq![
                FollowerAction::Inject(
                    InjectorCommand::MouseMoveAbsolute { x: at.0 as i32, y: at.1 as i32 },
                ),
                FollowerAction::CursorEntered,
            ],
        )
    }

    /// The cursor moves by `(dx, dy)` while this host has control: the
    /// tracked position follows, held to the screen; the movement is
    /// injected; and where the edge detector reports a transition at the
    /// edge of entry, control goes back to the primary host.
    pub open spec fn move_by(self, dx: i32, dy: i32, now: u128) -> (FollowerView, Seq<FollowerAction>) {
        let x = spec_clamp_to_screen(self.control.cursor_x + dx, self.detector.width) as i32;
        let y = spec_clamp_to_screen(self.control.cursor_y + dy, self.detector.height) as i32;
        let checked = self.detector.check(x, y, now);
        let moved = FollowerControlState { cursor_x: x, cursor_y: y, ..self.control };
        let inject = FollowerAction::Inject(InjectorCommand::MouseMoveRelative { dx, dy });
        match checked.1 {
            EdgeDetectResult::Transition { edge, position } if edge == self.control.entry_edge => (
                FollowerView {
                    detector: checked.0.cleared(),
                    control: FollowerControlState { has_control: false, ..moved },
                },
                seq![
                    inject,
                    FollowerAction::Send(Message::LeaveScreen { edge, position }),
                    FollowerAction::CursorReturned,
                ],
            ),
            _ => (FollowerView { detector: checked.0, control: moved }, seq![inject]),
        }
    }

    /// What the follower does about a message from the primary host that
    /// arrives at time `now`.
    ///
    /// `EnterScreen` gives this host control. While it has control,
    /// relative movement is tracked and injected, and the other input
    /// messages are injected as they stand; an absolute movement also
    /// sets the tracked position. Without control, and for every other
    /// message, nothing happens.
    pub open spec fn on_message(self, message: Message, now: u128) -> (
        FollowerView,
        Seq<FollowerAction>,
    ) {
        match message {
            Message::EnterScreen { edge, position } => self.enter(edge, position),
            Message::MouseMoveRelative { dx, dy } if self.control.has_control => self.move_by(
                dx,
                dy,
                now,
            ),
            Message::MouseMoveAbsolute { x, y } if self.control.has_control => (
                FollowerView {
                    control: FollowerControlState { cursor_x: x, cursor_y: y, ..self.control },
                    ..self
                },
                seq![FollowerAction::Inject(InjectorCommand::MouseMoveAbsolute { x, y })],
            ),
            _ => if self.control.has_control && spec_forwarded(message) is Some {
                (self, seq![FollowerAction::Inject(spec_forwarded(message)->Some_0)])
            } else {
                (self, Seq::empty())
            },
        }
    }
}

/// The secondary host's side of control transfer.
pub struct Follower {
    /// Detects the crossing by which control goes back.
    edge_detector: EdgeDetector,
    /// Whether this host has control, and where its cursor is.
    control: FollowerControlState,
}

impl View for Follower {
    type V = FollowerView;

    closed spec fn view(&self) -> FollowerView {
        FollowerView { detector: self.edge_detector@, control: self.control }
    }
}

impl Follower {
    /// A follower for a screen of the given size, without control.
    pub fn new(config: EdgeDetectorConfig, screen_width: u32, screen_height: u32) -> (follower:
        Follower)
        ensures
            follower@.detector == EdgeDetector::spec_new(config, screen_width, screen_height),
            follower@.detector.wf(),
            follower@.control == (FollowerControlState {
                has_control: false,
                entry_edge: ScreenEdge::Left,
                cursor_x: 0,
                cursor_y: 0,
            }),
    {
        Follower {
            edge_detector: EdgeDetector::new(config, screen_width, screen_height),
            control: FollowerControlState {
                has_control: false,
                entry_edge: ScreenEdge::Left,
                cursor_x: 0,
                cursor_y: 0,
            },
        }
    }

    /// Whether this host has control, and where its cursor is.
    pub fn control(&self) -> (control: FollowerControlState)
        ensures
            control == self@.control,
    {
        self.control
    }

    /// Handle a message from the primary host that arrives at time `now`,
    /// in nanoseconds on a monotonic clock.
    pub fn on_message(&mut self, message: Message, now: u128) -> (actions: Vec<FollowerAction>)
        ensures
            (final(self)@, actions@) == old(self)@.on_message(message, now),
            old(self)@.detector.wf() ==> final(self)@.detector.wf(),
    {
        let mut actions: Vec<FollowerAction> = Vec::new();
        match message {
            Message::EnterScreen { edge, position } => {
                // Position cursor at entry point
                let width: u32 = self.edge_detector.screen_width();
                let height: u32 = self.edge_detector.screen_height();
                let at = denormalize_edge_position(edge, position, width, height);
                self.control = FollowerControlState {
                    has_control: true,
                    entry_edge: edge,
                    cursor_x: at.0,
                    cursor_y: at.1,
                };
                actions.push(
                    FollowerAction::Inject(InjectorCommand::MouseMoveAbsolute { x: at.0, y: at.1 }),
                );
                self.edge_detector.reset();
                actions.push(FollowerAction::CursorEntered);
                assert(actions@ =~= old(self)@.on_message(message, now).1);
            },
            Message::MouseMoveRelative { dx, dy } => {
                if self.control.has_control {
                    // Clamp to screen bounds
                    let width: u32 = self.edge_detector.screen_width();
                    let height: u32 = self.edge_detector.screen_height();
                    let x: i32 = clamp_to_screen(self.control.cursor_x as i64 + dx as i64, width);
                    let y: i32 = clamp_to_screen(self.control.cursor_y as i64 + dy as i64, height);
                    self.control.cursor_x = x;
                    self.control.cursor_y = y;
                    actions.push(
                        FollowerAction::Inject(InjectorCommand::MouseMoveRelative { dx, dy }),
                    );

                    // Check if we should return to server
                    let result = self.edge_detector.check_at(x, y, now);
                    match result {
                        EdgeDetectResult::Transition { edge, position } => {
                            // Check if this is the return edge
                            if edge == self.control.entry_edge {
                                self.control.has_control = false;
                                actions.push(
                                    FollowerAction::Send(Message::LeaveScreen { edge, position }),
                                );
                                self.edge_detector.reset();
                                actions.push(FollowerAction::CursorReturned);
                            }
                        },
                        _ => {},
                    }
                    assert(actions@ =~= old(self)@.on_message(message, now).1);
                }
            },
            Message::MouseMoveAbsolute { x, y } => {
                if self.control.has_control {
                    self.control.cursor_x = x;
                    self.control.cursor_y = y;
                    actions.push(FollowerAction::Inject(InjectorCommand::MouseMoveAbsolute { x, y }));
                    assert(actions@ =~= old(self)@.on_message(message, now).1);
                }
            },
            Message::MouseButton { button, pressed } => {
                if self.control.has_control {
                    actions.push(FollowerAction::Inject(InjectorCommand::MouseButton { button, pressed }));
                    assert(actions@ =~= old(self)@.on_message(message, now).1);
                }
            },
            Message::MouseScroll { dx, dy } => {
                if self.control.has_control {
                    actions.push(FollowerAction::Inject(InjectorCommand::MouseScroll { dx, dy }));
                    assert(actions@ =~= old(self)@.on_message(message, now).1);
                }
            },
            Message::KeyDown { keycode, modifiers, .. } => {
                if self.control.has_control {
                    actions.push(FollowerAction::Inject(InjectorCommand::KeyDown { keycode, modifiers }));
                    assert(actions@ =~= old(self)@.on_message(message, now).1);
                }
            },
            Message::KeyUp { keycode, modifiers } => {
                if self.control.has_control {
                    actions.push(FollowerAction::Inject(InjectorCommand::KeyUp { keycode, modifiers }));
                    assert(actions@ =~= old(self)@.on_message(message, now).1);
                }
            },
            _ => {},
        }
        assert(actions@ =~= old(self)@.on_message(message, now).1);
        actions
    }
}

} // verus!
