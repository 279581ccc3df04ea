//! Screen edge detection.
//!
//! Detects when the cursor hits the edge of the screen and determines
//! if it should transition to another host.
//!
//! The detector is a state machine over cursor samples and the time at
//! which each is taken, in nanoseconds on a clock that never runs backwards.
//! [`EdgeDetector::check_at`] takes the time from the caller;
//! [`EdgeDetector::check`] reads the detector's own clock.

use std::time::{Duration, Instant};
use vstd::prelude::*;

use crate::protocol::ScreenEdge;
use crate::screen::{spec_normalize_edge_position, normalize_edge_position, EdgePosition};

verus! {

/// Bitmask for enabled edges.
#[derive(Debug, Clone, Copy, PartialEq, Eq)]
pub struct EdgeMask(u8);

/// The bit that stands for an edge in a mask.
pub open spec fn spec_edge_bit(edge: ScreenEdge) -> u8 {
    match edge {
        ScreenEdge::Left => 1,
        ScreenEdge::Right => 2,
        ScreenEdge::Top => 4,
        ScreenEdge::Bottom => 8,
    }
}

fn edge_bit(edge: ScreenEdge) -> (bit: u8)
    ensures
        bit == spec_edge_bit(edge),
{
    match edge {
        ScreenEdge::Left => 1,
        ScreenEdge::Right => 2,
        ScreenEdge::Top => 4,
        ScreenEdge::Bottom => 8,
    }
}

proof fn lemma_set_bit(bits: u8, bit: u8, other: u8)
    requires
        bit == 1 || bit == 2 || bit == 4 || bit == 8,
        other == 1 || other == 2 || other == 4 || other == 8,
    ensures
        ((bits | bit) & other != 0) == (other == bit || bits & other != 0),
        bits < 16 ==> (bits | bit) < 16,
{
    assert(((bits | bit) & other != 0) == (other == bit || bits & other != 0)) by (bit_vector)
        requires
            bit == 1 || bit == 2 || bit == 4 || bit == 8,
            other == 1 || other == 2 || other == 4 || other == 8,
    ;
    assert(bits < 16 ==> (bits | bit) < 16) by (bit_vector)
        requires
            bit == 1 || bit == 2 || bit == 4 || bit == 8,
    ;
}

proof fn lemma_clear_bit(bits: u8, bit: u8, other: u8)
    requires
        bit == 1 || bit == 2 || bit == 4 || bit == 8,
        other == 1 || other == 2 || other == 4 || other == 8,
    ensures
        ((bits & !bit) & other != 0) == (other != bit && bits & other != 0),
        bits < 16 ==> (bits & !bit) < 16,
{
    assert(((bits & !bit) & other != 0) == (other != bit && bits & other != 0)) by (bit_vector)
        requires
            bit == 1 || bit == 2 || bit == 4 || bit == 8,
            other == 1 || other == 2 || other == 4 || other == 8,
    ;
    assert(bits < 16 ==> (bits & !bit) < 16) by (bit_vector);
}

impl EdgeMask {
    /// Whether the mask enables the edge.
    pub closed spec fn enables(&self, edge: ScreenEdge) -> bool {
        self.0 & spec_edge_bit(edge) != 0
    }

    /// A mask holds nothing but the four edges.
    pub closed spec fn wf(&self) -> bool {
        self.0 < 16
    }

    /// The mask that enables no edge.
    pub fn none() -> (mask: EdgeMask)
        ensures
            mask.wf(),
            forall|edge: ScreenEdge| !mask.enables(edge),
    {
        assert(forall|bit: u8| 0u8 & bit == 0) by (bit_vector);
        EdgeMask(0)
    }

    /// The mask that enables one edge.
    pub fn only(edge: ScreenEdge) -> (mask: EdgeMask)
        ensures
            mask.wf(),
            forall|other: ScreenEdge| mask.enables(other) == (other == edge),
    {
        let mut mask = EdgeMask::none();
        mask.enable(edge);
        mask
    }

    pub fn all() -> (mask: EdgeMask)
        ensures
            mask.wf(),
            forall|edge: ScreenEdge| mask.enables(edge),
    {
        assert(0b1111u8 & 1 != 0 && 0b1111u8 & 2 != 0 && 0b1111u8 & 4 != 0 && 0b1111u8 & 8 != 0)
            by (bit_vector);
        EdgeMask(0b1111)
    }

    #[verifier::when_used_as_spec(enables)]
    pub fn is_enabled(&self, edge: ScreenEdge) -> (enabled: bool)
        ensures
            enabled == self.enables(edge),
    {
        let bit: u8 = edge_bit(edge);
        (self.0 & bit) != 0
    }

    pub fn enable(&mut self, edge: ScreenEdge)
        ensures
            forall|other: ScreenEdge|
                final(self).enables(other) == (other == edge || old(self).enables(other)),
            old(self).wf() ==> final(self).wf(),
    {
        let bit: u8 = edge_bit(edge);
        proof {
            lemma_set_bit(self.0, bit, 1);
            lemma_set_bit(self.0, bit, 2);
            lemma_set_bit(self.0, bit, 4);
            lemma_set_bit(self.0, bit, 8);
        }
        self.0 |= bit;
    }

    pub fn disable(&mut self, edge: ScreenEdge)
        ensures
            forall|other: ScreenEdge|
                final(self).enables(other) == (other != edge && old(self).enables(other)),
            old(self).wf() ==> final(self).wf(),
    {
        let bit: u8 = edge_bit(edge);
        proof {
            lemma_clear_bit(self.0, bit, 1);
            lemma_clear_bit(self.0, bit, 2);
            lemma_clear_bit(self.0, bit, 4);
            lemma_clear_bit(self.0, bit, 8);
        }
        self.0 &= !bit;
    }
}


/// Configuration for edge detection.
#[derive(Debug, Clone, Copy)]
pub struct EdgeDetectorConfig {
    /// Margin in pixels from the screen edge to trigger detection.
    pub edge_margin: u32,
    /// Minimum time the cursor must be at the edge before transitioning (ms).
    pub dwell_time_ms: u64,
    /// Whether to require a double tap at the edge to transition.
    pub require_double_tap: bool,
    /// Time window for double-tap detection (ms).
    pub double_tap_window_ms: u64,
    /// Edges that are enabled for transitions.
    pub enabled_edges: EdgeMask,
}

impl Default for EdgeDetectorConfig {
    fn default() -> (config: EdgeDetectorConfig)
        ensures
            config.edge_margin == 1,
            config.dwell_time_ms == 0,
            !config.require_double_tap,
            config.double_tap_window_ms == 500,
            config.enabled_edges.wf(),
            forall|edge: ScreenEdge| config.enabled_edges.enables(edge),
    {
        EdgeDetectorConfig {
            edge_margin: 1,
            dwell_time_ms: 0,
            require_double_tap: false,
            double_tap_window_ms: 500,
            enabled_edges: EdgeMask::all(),
        }
    }
}

/// Result of edge detection.
#[derive(Debug, Clone, Copy)]
pub enum EdgeDetectResult {
    /// Cursor is not at any edge.
    NotAtEdge,
    /// Cursor is at an edge but waiting for the dwell time.
    Dwelling { edge: ScreenEdge, remaining_ms: u64 },
    /// Cursor should transition to another screen.
    Transition {
        edge: ScreenEdge,
        /// Normalized position along the edge.
        position: EdgePosition,
    },
}

/// What the detector remembers of one edge.
#[derive(Debug, Clone, Copy)]
pub struct EdgeState {
    /// When the cursor first touched this edge.
    pub touch_start: Option<u128>,
    /// When the touch began that the cursor last left (for double tap).
    pub last_tap: Option<u128>,
}

/// The state of an edge that the cursor has not touched.
pub open spec fn untouched() -> EdgeState {
    EdgeState { touch_start: None, last_tap: None }
}

/// The abstract state of a detector.
pub struct DetectorView {
    pub config: EdgeDetectorConfig,
    pub width: u32,
    pub height: u32,
    /// Per-edge state, indexed by the edge's code.
    pub states: Seq<EdgeState>,
    /// The edge that the cursor is at, if any.
    pub current_edge: Option<ScreenEdge>,
    /// Whether the transition of this stay at the current edge has been
    /// reported.
    pub reported: bool,
}

/// A cursor sample: where the cursor is, and when.
pub struct Sample {
    pub x: i32,
    pub y: i32,
    pub now: u128,
}

/// Nanoseconds in a millisecond.
pub const NANOS_PER_MILLI: u128 = 1_000_000;

/// Whole milliseconds from `since` to `now`; zero if `now` is the earlier.
pub open spec fn elapsed_ms(now: u128, since: u128) -> int {
    if now >= since {
        (now - since) / (NANOS_PER_MILLI as int)
    } else {
        0
    }
}

impl DetectorView {
    /// The edge at which a cursor at `(x, y)` is: within the margin of an
    /// enabled edge, the left edge before the right, the top and the bottom.
    pub open spec fn edge_at(self, x: i32, y: i32) -> Option<ScreenEdge> {
        let margin = self.config.edge_margin as int;
        if x <= margin && self.config.enabled_edges.enables(ScreenEdge::Left) {
            Some(ScreenEdge::Left)
        } else if x >= self.width - margin - 1 && self.config.enabled_edges.enables(
            ScreenEdge::Right,
        ) {
            Some(ScreenEdge::Right)
        } else if y <= margin && self.config.enabled_edges.enables(ScreenEdge::Top) {
            Some(ScreenEdge::Top)
        } else if y >= self.height - margin - 1 && self.config.enabled_edges.enables(
            ScreenEdge::Bottom,
        ) {
            Some(ScreenEdge::Bottom)
        } else {
            None
        }
    }

    /// Every edge has a state, only the current edge has a running touch,
    /// and a transition is reported only of a stay at an edge.
    pub open spec fn wf(self) -> bool {
        &&& self.states.len() == 4
        &&& forall|edge: ScreenEdge| #[trigger]
            self.states[edge.spec_code() as int].touch_start.is_some() ==> self.current_edge
                == Some(edge)
        &&& self.reported ==> self.current_edge is Some
    }

    pub open spec fn state_of(self, edge: ScreenEdge) -> EdgeState {
        self.states[edge.spec_code() as int]
    }

    pub open spec fn with_state(self, edge: ScreenEdge, state: EdgeState) -> DetectorView {
        DetectorView { states: self.states.update(edge.spec_code() as int, state), ..self }
    }

    pub open spec fn at_edge(self, edge: Option<ScreenEdge>) -> DetectorView {
        DetectorView { current_edge: edge, ..self }
    }

    /// The detector with all per-edge state and the current edge cleared.
    pub open spec fn cleared(self) -> DetectorView {
        DetectorView {
            states: Seq::new(4, |i: int| untouched()),
            current_edge: None,
            reported: false,
            ..self
        }
    }

    pub open spec fn transition(self, edge: ScreenEdge, x: i32, y: i32) -> EdgeDetectResult {
        EdgeDetectResult::Transition {
            edge,
            position: spec_normalize_edge_position(edge, x, y, self.width, self.height),
        }
    }

    pub open spec fn dwelling(self, edge: ScreenEdge) -> EdgeDetectResult {
        EdgeDetectResult::Dwelling { edge, remaining_ms: self.config.dwell_time_ms }
    }

    /// The detector that has reported `result` of a stay that began or
    /// went on: a transition is noted, so that the stay reports no other.
    pub open spec fn reporting(self, result: EdgeDetectResult) -> (DetectorView, EdgeDetectResult) {
        (DetectorView { reported: self.reported || result is Transition, ..self }, result)
    }

    /// The cursor left `edge` for the inside of the screen: the stay is
    /// over.
    pub open spec fn leave(self, edge: ScreenEdge) -> (DetectorView, EdgeDetectResult) {
        let old_state = self.state_of(edge);
        let state = EdgeState {
            touch_start: None,
            last_tap: if self.config.require_double_tap {
                old_state.touch_start
            } else {
                old_state.last_tap
            },
        };
        (
            DetectorView { reported: false, ..self.with_state(edge, state).at_edge(None) },
            EdgeDetectResult::NotAtEdge,
        )
    }

    /// The cursor reached `edge` from the inside of the screen: a stay
    /// begins. With double tap required, a touch within the window of the
    /// last one is a transition at once; any other touch begins to dwell.
    /// Without, a touch is a transition at once where there is no dwell
    /// time, and begins to dwell otherwise.
    pub open spec fn arrive(self, edge: ScreenEdge, x: i32, y: i32, now: u128) -> (
        DetectorView,
        EdgeDetectResult,
    ) {
        let old_state = self.state_of(edge);
        let begun = DetectorView { reported: false, ..self.at_edge(Some(edge)) };
        if self.config.require_double_tap && old_state.last_tap.is_some() {
            if elapsed_ms(now, old_state.last_tap.unwrap()) > self.config.double_tap_window_ms {
                begun.with_state(edge, EdgeState { touch_start: Some(now), last_tap: None })
                    .reporting(self.dwelling(edge))
            } else {
                begun.with_state(edge, EdgeState { last_tap: None, ..old_state }).reporting(
                    self.transition(edge, x, y),
                )
            }
        } else {
            begun.with_state(edge, EdgeState { touch_start: Some(now), ..old_state }).reporting(
                if self.config.dwell_time_ms == 0 && !self.config.require_double_tap {
                    self.transition(edge, x, y)
                } else {
                    self.dwelling(edge)
                },
            )
        }
    }

    /// The cursor is still at `edge`: the stay goes on. Once its
    /// transition has been reported there is nothing more to wait for.
    /// Before that, the transition is due when the dwell time has passed
    /// since the touch began; a stay without a touch begins one.
    pub open spec fn stay(self, edge: ScreenEdge, x: i32, y: i32, now: u128) -> (
        DetectorView,
        EdgeDetectResult,
    ) {
        if self.reported {
            (self, EdgeDetectResult::Dwelling { edge, remaining_ms: 0 })
        } else {
            match self.state_of(edge).touch_start {
                Some(start) => {
                    let elapsed = elapsed_ms(now, start);
                    if elapsed >= self.config.dwell_time_ms {
                        self.reporting(self.transition(edge, x, y))
                    } else {
                        (
                            self,
                            EdgeDetectResult::Dwelling {
                                edge,
                                remaining_ms: (self.config.dwell_time_ms - elapsed) as u64,
                            },
                        )
                    }
                },
                None => (
                    self.with_state(
                        edge,
                        EdgeState { touch_start: Some(now), ..self.state_of(edge) },
                    ),
                    self.dwelling(edge),
                ),
            }
        }
    }

    /// The cursor moved from another edge straight to `edge`: a new stay
    /// begins, with nothing remembered of any edge.
    pub open spec fn switch(self, edge: ScreenEdge, x: i32, y: i32, now: u128) -> (
        DetectorView,
        EdgeDetectResult,
    ) {
        self.cleared().with_state(edge, EdgeState { touch_start: Some(now), last_tap: None })
            .at_edge(Some(edge)).reporting(
            if self.config.dwell_time_ms == 0 {
                self.transition(edge, x, y)
            } else {
                self.dwelling(edge)
            },
        )
    }

    /// One step of the detector: the state after a cursor sample at `(x, y)`
    /// taken at time `now`, and the result reported for it.
    pub open spec fn check(self, x: i32, y: i32, now: u128) -> (DetectorView, EdgeDetectResult) {
        match (self.current_edge, self.edge_at(x, y)) {
            (Some(previous), None) => self.leave(previous),
            (None, Some(edge)) => self.arrive(edge, x, y, now),
            (Some(previous), Some(edge)) => if previous == edge {
                self.stay(edge, x, y, now)
            } else {
                self.switch(edge, x, y, now)
            },
            (None, None) => (DetectorView { reported: false, ..self }, EdgeDetectResult::NotAtEdge),
        }
    }

    /// The detector after a run of samples, each checked in turn.
    pub open spec fn after(self, samples: Seq<Sample>) -> DetectorView
        decreases samples.len(),
    {
        if samples.len() == 0 {
            self
        } else {
            let last = samples.last();
            self.after(samples.drop_last()).check(last.x, last.y, last.now).0
        }
    }

    /// The result reported for the sample at place `k` of a run.
    pub open spec fn result_at(self, samples: Seq<Sample>, k: int) -> EdgeDetectResult
        recommends
            0 <= k < samples.len(),
    {
        self.after(samples.take(k)).check(samples[k].x, samples[k].y, samples[k].now).1
    }
}

/// The edge that a result names, if it names one.
pub open spec fn edge_of(result: EdgeDetectResult) -> Option<ScreenEdge> {
    match result {
        EdgeDetectResult::NotAtEdge => None,
        EdgeDetectResult::Dwelling { edge, .. } => Some(edge),
        EdgeDetectResult::Transition { edge, .. } => Some(edge),
    }
}

/// A point in time on the process's monotonic clock, `std::time::Instant`.
/// Nothing inside it is visible to the proofs.
#[verifier::external_type_specification]
#[verifier::external_body]
pub struct ExInstant(std::time::Instant);

/// Reads the process's monotonic clock through `Instant::now`. Nothing is
/// claimed of the instant that comes back.
#[verifier::external_body]
fn clock_now() -> (now: Instant) {
    Instant::now()
}

/// The time that has passed since `origin` on the monotonic clock, through
/// `Instant::elapsed`. Nothing is claimed of its length.
#[verifier::external_body]
fn clock_elapsed(origin: &Instant) -> (elapsed: Duration) {
    origin.elapsed()
}

/// The whole nanoseconds of a duration, through `Duration::as_nanos`.
/// Nothing is claimed of the number.
#[verifier::external_body]
fn duration_nanos(duration: Duration) -> (nanos: u128) {
    duration.as_nanos()
}

/// Detects screen edge transitions.
pub struct EdgeDetector {
    /// Configuration.
    config: EdgeDetectorConfig,
    /// Screen dimensions.
    screen_width: u32,
    screen_height: u32,
    /// State for each edge, indexed by the edge's code.
    edge_states: [EdgeState; 4],
    /// Currently detected edge (if any).
    current_edge: Option<ScreenEdge>,
    /// Whether the transition of the stay at the current edge has been
    /// reported.
    reported: bool,
    /// The instant from which `check` counts time.
    origin: Instant,
}

impl View for EdgeDetector {
    type V = DetectorView;

    closed spec fn view(&self) -> DetectorView {
        DetectorView {
            config: self.config,
            width: self.screen_width,
            height: self.screen_height,
            states: self.edge_states@,
            current_edge: self.current_edge,
            reported: self.reported,
        }
    }
}

impl EdgeDetector {
    /// The state of a detector that has seen no cursor sample.
    pub open spec fn spec_new(
        config: EdgeDetectorConfig,
        screen_width: u32,
        screen_height: u32,
    ) -> DetectorView {
        DetectorView {
            config,
            width: screen_width,
            height: screen_height,
            states: Seq::new(4, |i: int| untouched()),
            current_edge: None,
            reported: false,
        }
    }

    /// Create a new edge detector.
    pub fn new(config: EdgeDetectorConfig, screen_width: u32, screen_height: u32) -> (detector:
        EdgeDetector)
        ensures
            detector@ == EdgeDetector::spec_new(config, screen_width, screen_height),
            detector@.wf(),
    {
        let fresh = EdgeState { touch_start: None, last_tap: None };
        let detector = EdgeDetector {
            config,
            screen_width,
            screen_height,
            edge_states: [fresh, fresh, fresh, fresh],
            current_edge: None,
            reported: false,
            origin: clock_now(),
        };
        assert(detector@.states =~= Seq::new(4, |i: int| untouched()));
        detector
    }

    /// The width of the screen in pixels.
    pub fn screen_width(&self) -> (width: u32)
        ensures
            width == self@.width,
    {
        self.screen_width
    }

    /// The height of the screen in pixels.
    pub fn screen_height(&self) -> (height: u32)
        ensures
            height == self@.height,
    {
        self.screen_height
    }

    /// Update screen dimensions.
    pub fn set_screen_size(&mut self, width: u32, height: u32)
        ensures
            final(self)@ == (DetectorView { width, height, ..old(self)@ }),
    {
        self.screen_width = width;
        self.screen_height = height;
    }

    /// Determine which edge (if any) the cursor is at.
    fn detect_edge(&self, x: i32, y: i32) -> (edge: Option<ScreenEdge>)
        ensures
            edge == self@.edge_at(x, y),
    {
        let margin: i64 = self.config.edge_margin as i64;
        let width: i64 = self.screen_width as i64;
        let height: i64 = self.screen_height as i64;
        if x as i64 <= margin && self.config.enabled_edges.is_enabled(ScreenEdge::Left) {
            Some(ScreenEdge::Left)
        } else if x as i64 >= width - margin - 1 && self.config.enabled_edges.is_enabled(
            ScreenEdge::Right,
        ) {
            Some(ScreenEdge::Right)
        } else if y as i64 <= margin && self.config.enabled_edges.is_enabled(ScreenEdge::Top) {
            Some(ScreenEdge::Top)
        } else if y as i64 >= height - margin - 1 && self.config.enabled_edges.is_enabled(
            ScreenEdge::Bottom,
        ) {
            Some(ScreenEdge::Bottom)
        } else {
            None
        }
    }

    /// Whole milliseconds from `since` to `now`.
    fn millis_between(now: u128, since: u128) -> (ms: u128)
        ensures
            ms == elapsed_ms(now, since),
    {
        if now >= since {
            (now - since) / NANOS_PER_MILLI
        } else {
            0
        }
    }

    /// Check a cursor position sampled at time `now`, in nanoseconds on a
    /// monotonic clock, and detect edge transitions.
    ///
    /// The result names the edge at which the cursor is, and is
    /// `NotAtEdge` exactly where it is at none; that edge is the current
    /// edge afterwards. A stay at an edge reports one transition at most.
    pub fn check_at(&mut self, x: i32, y: i32, now: u128) -> (result: EdgeDetectResult)
        ensures
            (final(self)@, result) == old(self)@.check(x, y, now),
            edge_of(result) == old(self)@.edge_at(x, y),
            final(self)@.current_edge == edge_of(result),
            result is Transition ==> !old(self)@.reported || old(self)@.current_edge != edge_of(
                result,
            ),
            old(self)@.wf() ==> final(self)@.wf(),
    {
        let detected_edge = self.detect_edge(x, y);
        let ghost before = self@;
        proof {
            lemma_check_names_edge(before, x, y, now);
            if before.wf() {
                lemma_check_keeps_wf(before, x, y, now);
            }
        }
        match (self.current_edge, detected_edge) {
            (Some(previous), None) => {
                let idx: usize = previous.code() as usize;
                let mut state = self.edge_states[idx];
                if self.config.require_double_tap {
                    state.last_tap = state.touch_start;
                }
                state.touch_start = None;
                self.edge_states[idx] = state;
                self.current_edge = None;
                self.reported = false;
                assert(self@ == before.leave(previous).0);
                EdgeDetectResult::NotAtEdge
            },
            (None, Some(edge)) => {
                let idx: usize = edge.code() as usize;
                let mut state = self.edge_states[idx];
                self.current_edge = Some(edge);
                self.reported = false;
                if self.config.require_double_tap {
                    if let Some(last_tap) = state.last_tap {
                        let elapsed: u128 = Self::millis_between(now, last_tap);
                        if elapsed > self.config.double_tap_window_ms as u128 {
                            // Too slow, not a double tap: start a new dwell
                            state.touch_start = Some(now);
                            state.last_tap = None;
                            self.edge_states[idx] = state;
                            assert(self@ == before.arrive(edge, x, y, now).0);
                            return EdgeDetectResult::Dwelling {
                                edge,
                                remaining_ms: self.config.dwell_time_ms,
                            };
                        } else {
                            // Double tap detected: transition immediately
                            state.last_tap = None;
                            self.edge_states[idx] = state;
                            self.reported = true;
                            assert(self@ == before.arrive(edge, x, y, now).0);
                            return EdgeDetectResult::Transition {
                                edge,
                                position: self.calculate_edge_position(edge, x, y),
                            };
                        }
                    }
                }
                state.touch_start = Some(now);
                self.edge_states[idx] = state;
                if self.config.dwell_time_ms == 0 && !self.config.require_double_tap {
                    // Instant transition
                    self.reported = true;
                    assert(self@ == before.arrive(edge, x, y, now).0);
                    EdgeDetectResult::Transition {
                        edge,
                        position: self.calculate_edge_position(edge, x, y),
                    }
                } else {
                    assert(self@ == before.arrive(edge, x, y, now).0);
                    EdgeDetectResult::Dwelling { edge, remaining_ms: self.config.dwell_time_ms }
                }
            },
            (Some(previous), Some(edge)) => {
                if previous == edge {
                    let idx: usize = edge.code() as usize;
                    if self.reported {
                        EdgeDetectResult::Dwelling { edge, remaining_ms: 0 }
                    } else if let Some(start) = self.edge_states[idx].touch_start {
                        let elapsed: u128 = Self::millis_between(now, start);
                        if elapsed >= self.config.dwell_time_ms as u128 {
                            // Dwell time complete, transition
                            self.reported = true;
                            EdgeDetectResult::Transition {
                                edge,
                                position: self.calculate_edge_position(edge, x, y),
                            }
                        } else {
                            EdgeDetectResult::Dwelling {
                                edge,
                                remaining_ms: self.config.dwell_time_ms - elapsed as u64,
                            }
                        }
                    } else {
                        let mut state = self.edge_states[idx];
                        state.touch_start = Some(now);
                        self.edge_states[idx] = state;
                        assert(self@ == before.stay(edge, x, y, now).0);
                        EdgeDetectResult::Dwelling { edge, remaining_ms: self.config.dwell_time_ms }
                    }
                } else {
                    // Moved directly from one edge to another: start fresh
                    let fresh = EdgeState { touch_start: None, last_tap: None };
                    self.edge_states = [fresh, fresh, fresh, fresh];
                    self.current_edge = Some(edge);
                    let idx: usize = edge.code() as usize;
                    self.edge_states[idx] = EdgeState { touch_start: Some(now), last_tap: None };
                    assert(self@.states =~= before.switch(edge, x, y, now).0.states);
                    if self.config.dwell_time_ms == 0 {
                        self.reported = true;
                        EdgeDetectResult::Transition {
                            edge,
                            position: self.calculate_edge_position(edge, x, y),
                        }
                    } else {
                        self.reported = false;
                        EdgeDetectResult::Dwelling { edge, remaining_ms: self.config.dwell_time_ms }
                    }
                }
            },
            (None, None) => {
                self.reported = false;
                EdgeDetectResult::NotAtEdge
            },
        }
    }

    /// Check cursor position and detect edge transitions, at the time that
    /// the detector's own clock shows.
    pub fn check(&mut self, x: i32, y: i32) -> (result: EdgeDetectResult)
        ensures
            exists|now: u128| (final(self)@, result) == #[trigger] old(self)@.check(x, y, now),
            edge_of(result) == old(self)@.edge_at(x, y),
            final(self)@.current_edge == edge_of(result),
            result is Transition ==> !old(self)@.reported || old(self)@.current_edge != edge_of(
                result,
            ),
            old(self)@.wf() ==> final(self)@.wf(),
    {
        let now: u128 = duration_nanos(clock_elapsed(&self.origin));
        self.check_at(x, y, now)
    }

    /// Calculate normalized position along an edge.
    fn calculate_edge_position(&self, edge: ScreenEdge, x: i32, y: i32) -> (p: EdgePosition)
        ensures
            p == spec_normalize_edge_position(edge, x, y, self@.width, self@.height),
    {
        normalize_edge_position(edge, x, y, self.screen_width, self.screen_height)
    }

    /// Reset all edge states.
    pub fn reset(&mut self)
        ensures
            final(self)@ == old(self)@.cleared(),
            final(self)@.wf(),
    {
        let fresh = EdgeState { touch_start: None, last_tap: None };
        self.edge_states = [fresh, fresh, fresh, fresh];
        self.current_edge = None;
        self.reported = false;
        assert(self@.states =~= old(self)@.cleared().states);
    }

    /// Get the current edge (if the cursor is at one).
    pub fn current_edge(&self) -> (edge: Option<ScreenEdge>)
        ensures
            edge == self@.current_edge,
    {
        self.current_edge
    }
}

/// A step of the detector keeps its state well formed.
pub proof fn lemma_check_keeps_wf(v: DetectorView, x: i32, y: i32, now: u128)
    requires
        v.wf(),
    ensures
        v.check(x, y, now).0.wf(),
{
    let after = v.check(x, y, now).0;
    assert forall|edge: ScreenEdge| #[trigger]
        after.states[edge.spec_code() as int].touch_start.is_some() implies after.current_edge
        == Some(edge) by {
        assert(v.states[edge.spec_code() as int].touch_start.is_some() ==> v.current_edge == Some(
            edge,
        ));
    }
}

/// The result of a step names the edge at which the cursor is, and is
/// `NotAtEdge` exactly where it is at none; that edge is the current edge
/// afterwards. A step changes neither the configuration nor the screen,
/// and a transition is reported only of a stay that has reported none.
pub proof fn lemma_check_names_edge(v: DetectorView, x: i32, y: i32, now: u128)
    ensures
        edge_of(v.check(x, y, now).1) == v.edge_at(x, y),
        v.check(x, y, now).1 is NotAtEdge <==> v.edge_at(x, y) is None,
        v.check(x, y, now).0.current_edge == v.edge_at(x, y),
        v.check(x, y, now).0.config == v.config,
        v.check(x, y, now).0.width == v.width,
        v.check(x, y, now).0.height == v.height,
        v.check(x, y, now).1 is Transition ==> v.check(x, y, now).0.reported,
        v.check(x, y, now).1 is Transition ==> !v.reported || v.current_edge != v.edge_at(x, y),
        v.reported && v.current_edge == v.edge_at(x, y) && v.current_edge is Some ==> v.check(
            x,
            y,
            now,
        ).0.reported,
{
}

/// A stay at an edge reports one transition at most, whatever the
/// configuration and whatever the detector has seen before: in a run of
/// samples that are all at one edge, once a sample has been answered with
/// a transition no later sample of the run is.
pub proof fn lemma_one_transition_per_stay(
    v: DetectorView,
    samples: Seq<Sample>,
    edge: ScreenEdge,
    first: int,
    later: int,
)
    requires
        forall|k: int|
            0 <= k < samples.len() ==> v.edge_at((#[trigger] samples[k]).x, samples[k].y) == Some(
                edge,
            ),
        0 <= first < later < samples.len(),
        v.result_at(samples, first) is Transition,
    ensures
        !(v.result_at(samples, later) is Transition),
        v.result_at(samples, later) is Dwelling,
{
    lemma_reported_lasts(v, samples, edge, first, later);
    let reached = v.after(samples.take(later));
    lemma_check_names_edge(reached, samples[later].x, samples[later].y, samples[later].now);
}

/// Within a run of samples at one edge, the detector that has answered
/// the sample at place `first` with a transition is, before every later
/// sample, at that edge with the transition reported, and as it was
/// configured.
pub proof fn lemma_reported_lasts(
    v: DetectorView,
    samples: Seq<Sample>,
    edge: ScreenEdge,
    first: int,
    later: int,
)
    requires
        forall|k: int|
            0 <= k < samples.len() ==> v.edge_at((#[trigger] samples[k]).x, samples[k].y) == Some(
                edge,
            ),
        0 <= first < later <= samples.len(),
        v.result_at(samples, first) is Transition,
    ensures
        v.after(samples.take(later)).reported,
        v.after(samples.take(later)).current_edge == Some(edge),
        v.after(samples.take(later)).config == v.config,
        v.after(samples.take(later)).width == v.width,
        v.after(samples.take(later)).height == v.height,
    decreases later - first,
{
    let before = samples.take(later - 1);
    let sample = samples[later - 1];
    assert(samples.take(later).drop_last() =~= before);
    assert(samples.take(later).last() == sample);
    lemma_run_keeps_screen(v, before);
    let reached = v.after(before);
    assert(reached.edge_at(sample.x, sample.y) == v.edge_at(sample.x, sample.y));
    lemma_check_names_edge(reached, sample.x, sample.y, sample.now);
    if later - 1 > first {
        lemma_reported_lasts(v, samples, edge, first, later - 1);
    }
}

/// A run of samples changes neither the configuration nor the screen.
pub proof fn lemma_run_keeps_screen(v: DetectorView, samples: Seq<Sample>)
    ensures
        v.after(samples).config == v.config,
        v.after(samples).width == v.width,
        v.after(samples).height == v.height,
    decreases samples.len(),
{
    if samples.len() > 0 {
        lemma_run_keeps_screen(v, samples.drop_last());
        let last = samples.last();
        lemma_check_names_edge(v.after(samples.drop_last()), last.x, last.y, last.now);
    }
}

} // verus!
