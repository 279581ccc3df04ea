//! Screen management: edge geometry, edge detection and the screen layout.

use vstd::prelude::*;

use crate::protocol::ScreenEdge;

pub mod edge_detector;
pub mod layout;

pub use edge_detector::{EdgeDetectResult, EdgeDetector, EdgeDetectorConfig, EdgeMask};
pub use layout::{LayoutBuilder, ScreenLayout, ScreenNode};

verus! {

/// A position along a screen edge, as the fraction `numer / denom` of the
/// edge's length, read clamped to the range from 0 to 1.
///
/// A fraction with `denom == 0` stands for the start of the edge.
#[derive(Debug, Clone, Copy, PartialEq, Eq, Structural)]
pub struct EdgePosition {
    pub numer: u32,
    pub denom: u32,
}

/// The largest pixel coordinate.
pub open spec fn max_coord() -> int {
    i32::MAX as int
}

/// A pixel count as a coordinate, held to the largest coordinate.
pub open spec fn as_coord(pixels: int) -> int {
    if pixels > max_coord() {
        max_coord()
    } else {
        pixels
    }
}

impl EdgePosition {
    /// The fraction of an edge of `extent` pixels at which the coordinate
    /// `coord` lies: `coord / extent`, held to the range from 0 to 1.
    pub open spec fn spec_along(coord: i32, extent: u32) -> EdgePosition {
        if extent == 0 {
            EdgePosition { numer: if coord > 0 { 1u32 } else { 0u32 }, denom: 1 }
        } else if coord <= 0 {
            EdgePosition { numer: 0, denom: extent }
        } else if coord >= extent {
            EdgePosition { numer: extent, denom: extent }
        } else {
            EdgePosition { numer: coord as u32, denom: extent }
        }
    }

    /// The number of pixels from the start of an edge of `extent` pixels to
    /// the position: the position times `extent`, rounded down.
    pub open spec fn spec_pixels(self, extent: u32) -> int {
        if self.denom == 0 {
            0
        } else if self.numer >= self.denom {
            extent as int
        } else {
            (self.numer as int * extent as int) / (self.denom as int)
        }
    }

    /// The position of `coord` along an edge of `extent` pixels.
    pub fn along(coord: i32, extent: u32) -> (p: EdgePosition)
        ensures
            p == EdgePosition::spec_along(coord, extent),
            p.denom >= 1,
            p.numer <= p.denom,
    {
        if extent == 0 {
            EdgePosition { numer: if coord > 0 { 1 } else { 0 }, denom: 1 }
        } else if coord <= 0 {
            EdgePosition { numer: 0, denom: extent }
        } else if coord as u32 >= extent {
            EdgePosition { numer: extent, denom: extent }
        } else {
            EdgePosition { numer: coord as u32, denom: extent }
        }
    }

    /// The coordinate of the position along an edge of `extent` pixels.
    pub fn pixels(&self, extent: u32) -> (c: i32)
        ensures
            c == as_coord(self.spec_pixels(extent)),
            0 <= c,
    {
        let whole: u64 = if self.denom == 0 {
            0
        } else if self.numer >= self.denom {
            extent as u64
        } else {
            assert(self.numer as int * extent as int <= 0xFFFF_FFFF * 0xFFFF_FFFF) by (nonlinear_arith)
                requires
                    0 <= self.numer as int <= 0xFFFF_FFFF,
                    0 <= extent as int <= 0xFFFF_FFFF,
            ;
            (self.numer as u64 * extent as u64) / (self.denom as u64)
        };
        assert(whole == self.spec_pixels(extent));
        assert(0 <= self.spec_pixels(extent)) by {
            if self.denom != 0 && self.numer < self.denom {
                assert(0 <= self.numer as int * extent as int) by (nonlinear_arith)
                    requires
                        0 <= self.numer as int,
                        0 <= extent as int,
                ;
            }
        }
        if whole > i32::MAX as u64 {
            i32::MAX
        } else {
            whole as i32
        }
    }
}

/// The coordinate of the last pixel of an edge of `extent` pixels.
pub open spec fn last_pixel(extent: u32) -> int {
    if extent == 0 {
        0
    } else {
        as_coord(extent - 1)
    }
}

/// The normalized position of the cursor along an edge: the vertical
/// coordinate over the height for the left and right edges, the horizontal
/// coordinate over the width for the top and bottom edges.
pub open spec fn spec_normalize_edge_position(
    edge: ScreenEdge,
    x: i32,
    y: i32,
    width: u32,
    height: u32,
) -> EdgePosition {
    match edge {
        ScreenEdge::Left | ScreenEdge::Right => EdgePosition::spec_along(y, height),
        ScreenEdge::Top | ScreenEdge::Bottom => EdgePosition::spec_along(x, width),
    }
}

/// The screen coordinates of a normalized position on an edge: on the edge
/// itself across it, and at the position's share of the screen along it.
pub open spec fn spec_denormalize_edge_position(
    edge: ScreenEdge,
    position: EdgePosition,
    width: u32,
    height: u32,
) -> (int, int) {
    match edge {
        ScreenEdge::Left => (0, as_coord(position.spec_pixels(height))),
        ScreenEdge::Right => (last_pixel(width), as_coord(position.spec_pixels(height))),
        ScreenEdge::Top => (as_coord(position.spec_pixels(width)), 0),
        ScreenEdge::Bottom => (as_coord(position.spec_pixels(width)), last_pixel(height)),
    }
}

fn last_coord(extent: u32) -> (c: i32)
    ensures
        c == last_pixel(extent),
        0 <= c,
{
    if extent == 0 {
        0
    } else if extent - 1 > i32::MAX as u32 {
        i32::MAX
    } else {
        (extent - 1) as i32
    }
}

/// Convert cursor position to a normalized edge position.
pub fn normalize_edge_position(edge: ScreenEdge, x: i32, y: i32, width: u32, height: u32) -> (p:
    EdgePosition)
    ensures
        p == spec_normalize_edge_position(edge, x, y, width, height),
        p.denom >= 1,
        p.numer <= p.denom,
{
    match edge {
        ScreenEdge::Left | ScreenEdge::Right => EdgePosition::along(y, height),
        ScreenEdge::Top | ScreenEdge::Bottom => EdgePosition::along(x, width),
    }
}

/// Convert a normalized edge position back to screen coordinates.
pub fn denormalize_edge_position(
    edge: ScreenEdge,
    position: EdgePosition,
    width: u32,
    height: u32,
) -> (at: (i32, i32))
    ensures
        (at.0 as int, at.1 as int) == spec_denormalize_edge_position(edge, position, width, height),
        0 <= at.0,
        0 <= at.1,
{
    match edge {
        ScreenEdge::Left => (0, position.pixels(height)),
        ScreenEdge::Right => (last_coord(width), position.pixels(height)),
        ScreenEdge::Top => (position.pixels(width), 0),
        ScreenEdge::Bottom => (position.pixels(width), last_coord(height)),
    }
}

/// Get the opposite edge (for screen transitions).
pub open spec fn spec_opposite_edge(edge: ScreenEdge) -> ScreenEdge {
    match edge {
        ScreenEdge::Left => ScreenEdge::Right,
        ScreenEdge::Right => ScreenEdge::Left,
        ScreenEdge::Top => ScreenEdge::Bottom,
        ScreenEdge::Bottom => ScreenEdge::Top,
    }
}

#[verifier::when_used_as_spec(spec_opposite_edge)]
pub fn opposite_edge(edge: ScreenEdge) -> (e: ScreenEdge)
    ensures
        e == spec_opposite_edge(edge),
{
    match edge {
        ScreenEdge::Left => ScreenEdge::Right,
        ScreenEdge::Right => ScreenEdge::Left,
        ScreenEdge::Top => ScreenEdge::Bottom,
        ScreenEdge::Bottom => ScreenEdge::Top,
    }
}

/// A pixel of the screen, normalized on an edge and placed back on the same
/// screen, lands on that edge at the coordinate it had along it.
pub proof fn lemma_normalize_denormalize(edge: ScreenEdge, x: i32, y: i32, width: u32, height: u32)
    requires
        0 <= x < width,
        0 <= y < height,
    ensures
        ({
            let position = spec_normalize_edge_position(edge, x, y, width, height);
            let at = spec_denormalize_edge_position(edge, position, width, height);
            match edge {
                ScreenEdge::Left => at.0 == 0 && at.1 == y,
                ScreenEdge::Right => at.0 == last_pixel(width) && at.1 == y,
                ScreenEdge::Top => at.0 == x && at.1 == 0,
                ScreenEdge::Bottom => at.0 == x && at.1 == last_pixel(height),
            }
        }),
{
    assert((y as int * height as int) / (height as int) == y) by (nonlinear_arith)
        requires
            height > 0,
    ;
    assert((x as int * width as int) / (width as int) == x) by (nonlinear_arith)
        requires
            width > 0,
    ;
}

/// Crossing an edge and coming back is crossing the opposite edge.
pub proof fn lemma_opposite_involutive(edge: ScreenEdge)
    ensures
        spec_opposite_edge(spec_opposite_edge(edge)) == edge,
        spec_opposite_edge(edge) != edge,
{
}

} // verus!
