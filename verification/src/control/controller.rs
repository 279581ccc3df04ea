//! The controller: the primary host's side of control transfer.
//!
//! The controller decides where captured input goes. While control is
//! local, it watches the cursor for a crossing into a neighboring host;
//! while control is remote, it forwards every captured event to the host
//! that has it, and takes control back when that host returns it or is
//! lost. Local input is suppressed exactly while control is remote.

use vstd::prelude::*;

use crate::input::events::InputEvent;
use crate::network::PeerAddr;
use crate::protocol::message::{Message, ScreenEdge, ScreenInfo};
use crate::screen::edge_detector::{DetectorView, EdgeDetectResult, EdgeDetector, EdgeDetectorConfig};
use crate::screen::layout::{fresh_node, LayoutView, ScreenLayout};
use crate::screen::{
    denormalize_edge_position,
    opposite_edge,
    spec_denormalize_edge_position,
    spec_opposite_edge,
};
use crate::text::same_text;

verus! {

/// Which host has control.
#[derive(Debug, Clone, Copy, PartialEq, Eq, Structural)]
pub enum ControlState {
    /// Input is going to the local machine.
    Local,
    /// Input is being sent to the remote host at this address.
    Remote(PeerAddr),
}

/// A connected client: its address and its screen.
#[derive(Debug)]
pub struct ClientEntry {
    pub addr: PeerAddr,
    pub screen: ScreenInfo,
}

/// What the controller asks of its caller.
#[derive(Debug)]
pub enum ControllerAction {
    /// Send the message to the client at the address.
    Send { to: PeerAddr, message: Message },
    /// Turn the suppression of captured input on or off.
    SetSuppress(bool),
    /// Place the local cursor.
    MoveCursor { x: i32, y: i32 },
    /// Tell the user that a client has connected; `clients` is their
    /// number now.
    ClientConnected { host_name: String, addr: PeerAddr, clients: usize },
    /// Tell the user that a client has disconnected.
    ClientDisconnected { addr: PeerAddr, reason: String },
    /// Tell the user that the cursor has moved to a client.
    CursorMovedTo { host_name: String },
}

/// The place of the first client from `from` on that has the address.
pub open spec fn find_addr(clients: Seq<ClientEntry>, addr: PeerAddr, from: int) -> Option<int>
    decreases clients.len() - from,
{
    if from < 0 || from >= clients.len() {
        None
    } else if clients[from].addr == addr {
        Some(from)
    } else {
        find_addr(clients, addr, from + 1)
    }
}

/// The place of the first client from `from` on whose host has the
/// identifier.
pub open spec fn find_host(clients: Seq<ClientEntry>, host_id: Seq<char>, from: int) -> Option<int>
    decreases clients.len() - from,
{
    if from < 0 || from >= clients.len() {
        None
    } else if clients[from].screen.host_id@ == host_id {
        Some(from)
    } else {
        find_host(clients, host_id, from + 1)
    }
}

/// The message that carries a captured event to the host that has
/// control. Relative motion is what travels; a key press carries its
/// character, a release does not.
pub open spec fn spec_input_event_to_message(event: InputEvent) -> Message {
    match event {
        InputEvent::MouseMove(e) => Message::MouseMoveRelative { dx: e.dx, dy: e.dy },
        InputEvent::MouseButton(e) => Message::MouseButton { button: e.button, pressed: e.pressed },
        InputEvent::MouseScroll(e) => Message::MouseScroll { dx: e.dx, dy: e.dy },
        InputEvent::Keyboard(e) => if e.pressed {
            Message::KeyDown { keycode: e.keycode, character: e.character, modifiers: e.modifiers }
        } else {
            Message::KeyUp { keycode: e.keycode, modifiers: e.modifiers }
        },
    }
}

/// Convert an input event to a protocol message.
pub fn input_event_to_message(event: &InputEvent) -> (message: Option<Message>)
    ensures
        message == Some(spec_input_event_to_message(*event)),
{
    match event {
        InputEvent::MouseMove(e) => Some(Message::MouseMoveRelative { dx: e.dx, dy: e.dy }),
        InputEvent::MouseButton(e) => Some(
            Message::MouseButton { button: e.button, pressed: e.pressed },
        ),
        InputEvent::MouseScroll(e) => Some(Message::MouseScroll { dx: e.dx, dy: e.dy }),
        InputEvent::Keyboard(e) => {
            if e.pressed {
                Some(
                    Message::KeyDown {
                        keycode: e.keycode,
                        character: e.character,
                        modifiers: e.modifiers,
                    },
                )
            } else {
                Some(Message::KeyUp { keycode: e.keycode, modifiers: e.modifiers })
            }
        },
    }
}

/// The controller as plain values.
pub struct ControllerView {
    /// The local screen.
    pub screen: ScreenInfo,
    pub detector: DetectorView,
    pub layout: LayoutView,
    /// The connected clients, in the order in which they connected.
    pub clients: Seq<ClientEntry>,
    pub control: ControlState,
    /// Whether captured input is kept from the local system.
    pub suppress: bool,
}

impl ControllerView {
    /// Input is suppressed exactly while control is remote.
    pub open spec fn suppression_follows_control(self) -> bool {
        self.suppress == (self.control != ControlState::Local)
    }

    /// The place among the clients of the host to which the cursor goes
    /// when it leaves the local screen by `edge`: the neighbor that the
    /// layout names beyond that edge, if it is a connected client; failing
    /// that, the first client where the edge is the right one.
    pub open spec fn peer_beyond(self, edge: ScreenEdge) -> Option<int> {
        let named = match self.layout.neighbor(self.screen.host_id@, edge) {
            Some(node) => find_host(self.clients, node.host_id, 0),
            None => None,
        };
        if named is Some {
            named
        } else if edge == ScreenEdge::Right && self.clients.len() > 0 {
            Some(0)
        } else {
            None
        }
    }

    /// A client has connected: it joins the layout and the clients.
    pub open spec fn client_connected(self, addr: PeerAddr, screen: ScreenInfo) -> (
        ControllerView,
        Seq<ControllerAction>,
    ) {
        (
            ControllerView {
                layout: self.layout.with_host(fresh_node(screen)),
                clients: self.clients.push(ClientEntry { addr, screen }),
                ..self
            },
            seq![
                ControllerAction::ClientConnected {
                    host_name: screen.host_name,
                    addr,
                    clients: (self.clients.len() + 1) as usize,
                },
            ],
        )
    }

    /// Control comes back to the local host.
    pub open spec fn take_back(self) -> ControllerView {
        ControllerView { control: ControlState::Local, suppress: false, ..self }
    }

    /// A client has disconnected: it leaves the clients and the layout,
    /// and control comes back if it had it.
    pub open spec fn client_disconnected(self, addr: PeerAddr, reason: String) -> (
        ControllerView,
        Seq<ControllerAction>,
    ) {
        let notice = ControllerAction::ClientDisconnected { addr, reason };
        match find_addr(self.clients, addr, 0) {
            Some(place) => {
                let without = ControllerView {
                    clients: self.clients.remove(place),
                    layout: self.layout.without_host(self.clients[place].screen.host_id@),
                    ..self
                };
                if self.control == ControlState::Remote(addr) {
                    (without.take_back(), seq![ControllerAction::SetSuppress(false), notice])
                } else {
                    (without, seq![notice])
                }
            },
            None => (self, seq![notice]),
        }
    }

    /// A message has arrived from the client at `addr`. Where that client
    /// has control and the message is `LeaveScreen`, control comes back
    /// and the cursor enters the local screen by the edge opposite to the
    /// one it left the client's by. Every other message is left to others.
    pub open spec fn message_received(self, addr: PeerAddr, message: Message) -> (
        ControllerView,
        Seq<ControllerAction>,
    ) {
        match message {
            Message::LeaveScreen { edge, position } if self.control == ControlState::Remote(addr) => {
                let at = spec_denormalize_edge_position(
                    spec_opposite_edge(edge),
                    position,
                    self.screen.width,
                    self.screen.height,
                );
                (
                    self.take_back(),
                    seq![
                        ControllerAction::SetSuppress(false),
                        ControllerAction::MoveCursor { x: at.0 as i32, y: at.1 as i32 },
                    ],
                )
            },
            _ => (self, Seq::empty()),
        }
    }

    /// Sending to the client at `addr` has failed: the client is taken for
    /// lost, and control comes back if it had it.
    pub open spec fn send_failed(self, addr: PeerAddr) -> (ControllerView, Seq<ControllerAction>) {
        if self.control == ControlState::Remote(addr) {
            (self.take_back(), seq![ControllerAction::SetSuppress(false)])
        } else {
            (self, Seq::empty())
        }
    }

    /// The cursor, under local control, was sampled at `(x, y)` at time
    /// `now`. Where the edge detector reports a transition and a client
    /// lies beyond the edge, that client is told that the cursor enters
    /// it by the opposite edge, input is suppressed, control is the
    /// client's, and edge detection starts afresh.
    pub open spec fn cursor_at(self, x: i32, y: i32, now: u128) -> (
        ControllerView,
        Seq<ControllerAction>,
    ) {
        let checked = self.detector.check(x, y, now);
        let watched = ControllerView { detector: checked.0, ..self };
        match checked.1 {
            EdgeDetectResult::Transition { edge, position } => match watched.peer_beyond(edge) {
                Some(place) => {
                    let peer = self.clients[place];
                    (
                        ControllerView {
                            detector: checked.0.cleared(),
                            control: ControlState::Remote(peer.addr),
                            suppress: true,
                            ..self
                        },
                        seq![
                            ControllerAction::Send {
                                to: peer.addr,
                                message: Message::EnterScreen {
                                    edge: spec_opposite_edge(edge),
                                    position,
                                },
                            },
                            ControllerAction::SetSuppress(true),
                            ControllerAction::CursorMovedTo { host_name: peer.screen.host_name },
                        ],
                    )
                },
                None => (watched, Seq::empty()),
            },
            _ => (watched, Seq::empty()),
        }
    }

    /// An event was captured at time `now`. Under local control only a
    /// mouse movement with an absolute position matters: it is a cursor
    /// sample. Under remote control the event goes to the client that has
    /// control; if that client is gone, control comes back.
    pub open spec fn input_captured(self, event: InputEvent, now: u128) -> (
        ControllerView,
        Seq<ControllerAction>,
    ) {
        match self.control {
            ControlState::Local => match event {
                InputEvent::MouseMove(motion) if motion.x is Some && motion.y is Some => self.cursor_at(
                    motion.x->Some_0,
                    motion.y->Some_0,
                    now,
                ),
                _ => (self, Seq::empty()),
            },
            ControlState::Remote(peer) => if find_addr(self.clients, peer, 0) is Some {
                (
                    self,
                    seq![
                        ControllerAction::Send {
                            to: peer,
                            message: spec_input_event_to_message(event),
                        },
                    ],
                )
            } else {
                (self.take_back(), seq![ControllerAction::SetSuppress(false)])
            },
        }
    }
}

/// Whatever happens, input stays suppressed exactly while control is
/// remote.
pub proof fn lemma_suppression_follows_control(
    controller: ControllerView,
    addr: PeerAddr,
    screen: ScreenInfo,
    reason: String,
    message: Message,
    event: InputEvent,
    now: u128,
)
    requires
        controller.suppression_follows_control(),
    ensures
        controller.client_connected(addr, screen).0.suppression_follows_control(),
        controller.client_disconnected(addr, reason).0.suppression_follows_control(),
        controller.message_received(addr, message).0.suppression_follows_control(),
        controller.send_failed(addr).0.suppression_follows_control(),
        controller.input_captured(event, now).0.suppression_follows_control(),
{
}

/// While a client has control, nothing that is captured sends the cursor
/// across an edge again: every action forwards the event to that client,
/// or takes control back.
pub proof fn lemma_remote_control_forwards(controller: ControllerView, event: InputEvent, now: u128)
    requires
        controller.control is Remote,
    ensures
        controller.input_captured(event, now).0.detector == controller.detector,
        forall|i: int|
            0 <= i < controller.input_captured(event, now).1.len() ==> match (
            #[trigger] controller.input_captured(event, now).1[i]) {
                ControllerAction::Send { to, message } => ControlState::Remote(to)
                    == controller.control && message == spec_input_event_to_message(event)
                    && message.spec_is_input_event(),
                ControllerAction::SetSuppress(on) => !on,
                _ => false,
            },
{
}

/// The primary host's side of control transfer.
pub struct Controller {
    /// The local screen.
    screen_info: ScreenInfo,
    /// Watches the cursor for crossings.
    edge_detector: EdgeDetector,
    /// Which host lies beyond which edge.
    layout: ScreenLayout,
    /// The connected clients.
    clients: Vec<ClientEntry>,
    /// Which host has control.
    control: ControlState,
    /// Whether captured input is kept from the local system.
    suppress: bool,
}

impl View for Controller {
    type V = ControllerView;

    closed spec fn view(&self) -> ControllerView {
        ControllerView {
            screen: self.screen_info,
            detector: self.edge_detector@,
            layout: self.layout@,
            clients: self.clients@,
            control: self.control,
            suppress: self.suppress,
        }
    }
}

impl Controller {
    /// The layout is well formed, and input is suppressed exactly while
    /// control is remote.
    pub closed spec fn wf(&self) -> bool {
        &&& self.layout.wf()
        &&& self@.suppression_follows_control()
    }

    /// A well-formed controller suppresses input exactly while control is
    /// remote.
    pub proof fn lemma_wf(&self)
        requires
            self.wf(),
        ensures
            self@.suppression_follows_control(),
            self@.layout.wf(),
    {
        self.layout.lemma_view_wf();
    }

    /// A controller for the local screen: control is local, no client is
    /// connected, and the layout holds the local host alone.
    pub fn new(screen_info: ScreenInfo, config: EdgeDetectorConfig) -> (controller: Controller)
        ensures
            controller.wf(),
            controller@ == (ControllerView {
                screen: screen_info,
                detector: EdgeDetector::spec_new(config, screen_info.width, screen_info.height),
                layout: LayoutView {
                    screens: Map::empty().insert(screen_info.host_id@, fresh_node(screen_info)),
                    local_host_id: Some(screen_info.host_id@),
                },
                clients: Seq::empty(),
                control: ControlState::Local,
                suppress: false,
            }),
    {
        let edge_detector = EdgeDetector::new(config, screen_info.width, screen_info.height);
        let mut layout = ScreenLayout::new();
        layout.set_local_host(&screen_info);
        Controller {
            screen_info,
            edge_detector,
            layout,
            clients: Vec::new(),
            control: ControlState::Local,
            suppress: false,
        }
    }

    /// Which host has control.
    pub fn control(&self) -> (control: ControlState)
        ensures
            control == self@.control,
    {
        self.control
    }

    /// Whether captured input is kept from the local system.
    pub fn is_suppressing(&self) -> (suppress: bool)
        ensures
            suppress == self@.suppress,
    {
        self.suppress
    }

    /// The connected clients.
    pub fn clients(&self) -> (clients: &Vec<ClientEntry>)
        ensures
            clients@ == self@.clients,
    {
        &self.clients
    }

    /// The layout of the screens.
    pub fn layout(&self) -> (layout: &ScreenLayout)
        ensures
            layout@ == self@.layout,
            self.wf() ==> layout.wf(),
    {
        &self.layout
    }

    fn position_of(&self, addr: PeerAddr) -> (place: Option<usize>)
        ensures
            match place {
                Some(i) => find_addr(self.clients@, addr, 0) == Some(i as int) && i
                    < self.clients@.len(),
                None => find_addr(self.clients@, addr, 0) is None,
            },
    {
        let mut i: usize = 0;
        while i < self.clients.len()
            invariant
                i <= self.clients@.len(),
                find_addr(self.clients@, addr, 0) == find_addr(self.clients@, addr, i as int),
            decreases self.clients@.len() - i,
        {
            if self.clients[i].addr == addr {
                return Some(i);
            }
            i += 1;
        }
        None
    }

    fn client_named(&self, host_id: &str) -> (place: Option<usize>)
        ensures
            match place {
                Some(i) => find_host(self.clients@, host_id@, 0) == Some(i as int) && i
                    < self.clients@.len(),
                None => find_host(self.clients@, host_id@, 0) is None,
            },
    {
        let mut i: usize = 0;
        while i < self.clients.len()
            invariant
                i <= self.clients@.len(),
                find_host(self.clients@, host_id@, 0) == find_host(self.clients@, host_id@, i as int),
            decreases self.clients@.len() - i,
        {
            if same_text(self.clients[i].screen.host_id.as_str(), host_id) {
                return Some(i);
            }
            i += 1;
        }
        None
    }

    /// Look up the peer beyond an edge of the local screen.
    fn peer_beyond(&self, edge: ScreenEdge) -> (place: Option<usize>)
        requires
            self.wf(),
        ensures
            match place {
                Some(i) => self@.peer_beyond(edge) == Some(i as int) && i < self.clients@.len(),
                None => self@.peer_beyond(edge) is None,
            },
    {
        match self.layout.get_neighbor(self.screen_info.host_id.as_str(), edge) {
            Some(node) => match self.client_named(node.host_id.as_str()) {
                Some(place) => {
                    return Some(place);
                },
                None => {},
            },
            None => {},
        }
        if edge == ScreenEdge::Right && self.clients.len() > 0 {
            Some(0)
        } else {
            None
        }
    }

    /// Handle the connection of a client.
    pub fn on_client_connected(&mut self, addr: PeerAddr, screen: ScreenInfo) -> (actions: Vec<
        ControllerAction,
    >)
        requires
            old(self).wf(),
        ensures
            final(self).wf(),
            (final(self)@, actions@) == old(self)@.client_connected(addr, screen),
    {
        // Add to layout
        self.layout.add_host(&screen);
        let host_name = screen.host_name.clone();
        self.clients.push(ClientEntry { addr, screen });
        let mut actions: Vec<ControllerAction> = Vec::new();
        actions.push(
            ControllerAction::ClientConnected { host_name, addr, clients: self.clients.len() },
        );
        assert(actions@ =~= old(self)@.client_connected(addr, screen).1);
        actions
    }

    /// Handle the loss of a client.
    pub fn on_client_disconnected(&mut self, addr: PeerAddr, reason: String) -> (actions: Vec<
        ControllerAction,
    >)
        requires
            old(self).wf(),
        ensures
            final(self).wf(),
            (final(self)@, actions@) == old(self)@.client_disconnected(addr, reason),
    {
        let mut actions: Vec<ControllerAction> = Vec::new();
        // Remove from client list
        match self.position_of(addr) {
            Some(place) => {
                let entry = self.clients.remove(place);

                // If we were sending to this client, return to local
                if self.control == ControlState::Remote(addr) {
                    self.control = ControlState::Local;
                    self.suppress = false;
                    actions.push(ControllerAction::SetSuppress(false));
                }
                // Remove from layout

                self.layout.remove_host(entry.screen.host_id.as_str());
            },
            None => {},
        }
        actions.push(ControllerAction::ClientDisconnected { addr, reason });
        assert(actions@ =~= old(self)@.client_disconnected(addr, reason).1);
        actions
    }

    /// Handle a message from a client.
    pub fn on_message(&mut self, addr: PeerAddr, message: Message) -> (actions: Vec<ControllerAction>)
        requires
            old(self).wf(),
        ensures
            final(self).wf(),
            (final(self)@, actions@) == old(self)@.message_received(addr, message),
    {
        let mut actions: Vec<ControllerAction> = Vec::new();
        match message {
            Message::LeaveScreen { edge, position } => {
                if self.control == ControlState::Remote(addr) {
                    // Client is returning control to us
                    self.control = ControlState::Local;
                    self.suppress = false;
                    actions.push(ControllerAction::SetSuppress(false));

                    // Move cursor to the appropriate position
                    let entry_edge = opposite_edge(edge);
                    let at = denormalize_edge_position(
                        entry_edge,
                        position,
                        self.screen_info.width,
                        self.screen_info.height,
                    );
                    actions.push(ControllerAction::MoveCursor { x: at.0, y: at.1 });
                }
            },
            _ => {},
        }
        assert(actions@ =~= old(self)@.message_received(addr, message).1);
        actions
    }

    /// Handle the failure of a send to a client.
    pub fn on_send_failed(&mut self, addr: PeerAddr) -> (actions: Vec<ControllerAction>)
        requires
            old(self).wf(),
        ensures
            final(self).wf(),
            (final(self)@, actions@) == old(self)@.send_failed(addr),
    {
        let mut actions: Vec<ControllerAction> = Vec::new();
        if self.control == ControlState::Remote(addr) {
            self.control = ControlState::Local;
            self.suppress = false;
            actions.push(ControllerAction::SetSuppress(false));
        }
        assert(actions@ =~= old(self)@.send_failed(addr).1);
        actions
    }

    /// Handle a captured input event at time `now`, in nanoseconds on a
    /// monotonic clock.
    pub fn on_input(&mut self, event: &InputEvent, now: u128) -> (actions: Vec<ControllerAction>)
        requires
            old(self).wf(),
        ensures
            final(self).wf(),
            (final(self)@, actions@) == old(self)@.input_captured(*event, now),
    {
        let mut actions: Vec<ControllerAction> = Vec::new();
        match self.control {
            ControlState::Local => {
                // Check for edge detection
                match event {
                    InputEvent::MouseMove(motion) => {
                        match (motion.x, motion.y) {
                            (Some(x), Some(y)) => {
                                let result = self.edge_detector.check_at(x, y, now);
                                match result {
                                    EdgeDetectResult::Transition { edge, position } => {
                                        // Check if there's a client on this edge
                                        match self.peer_beyond(edge) {
                                            Some(place) => {
                                                let to: PeerAddr = self.clients[place].addr;
                                                let host_name =
                                                    self.clients[place].screen.host_name.clone();

                                                // Send enter screen message
                                                actions.push(
                                                    ControllerAction::Send {
                                                        to,
                                                        message: Message::EnterScreen {
                                                            edge: opposite_edge(edge),
                                                            position,
                                                        },
                                                    },
                                                );
                                                self.control = ControlState::Remote(to);
                                                self.suppress = true;
                                                actions.push(ControllerAction::SetSuppress(true));
                                                self.edge_detector.reset();
                                                actions.push(
                                                    ControllerAction::CursorMovedTo { host_name },
                                                );
                                            },
                                            None => {},
                                        }
                                    },
                                    _ => {},
                                }
                            },
                            _ => {},
                        }
                    },
                    _ => {},
                }
            },
            ControlState::Remote(peer) => {
                // Send input to the remote client
                match self.position_of(peer) {
                    Some(_) => {
                        match input_event_to_message(event) {
                            Some(message) => {
                                actions.push(ControllerAction::Send { to: peer, message });
                            },
                            None => {},
                        }
                    },
                    None => {
                        // Client no longer exists, return to local
                        self.control = ControlState::Local;
                        self.suppress = false;
                        actions.push(ControllerAction::SetSuppress(false));
                    },
                }
            },
        }
        assert(actions@ =~= old(self)@.input_captured(*event, now).1);
        actions
    }
}

} // verus!
