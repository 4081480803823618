//! The handles and rectangles that cross the boundary to the window system
//! and the graphics driver.

use vstd::prelude::*;

verus! {

/// A presentation target: the device context that frames are presented to.
#[derive(Clone, Copy, Debug, PartialEq, Eq, Structural)]
pub struct Surface {
    pub handle: isize,
}

/// A graphics context of the driver.
#[derive(Clone, Copy, Debug, PartialEq, Eq, Structural)]
pub struct GlContext {
    pub handle: isize,
}

/// The client-area rectangle of a window, in pixels.
#[derive(Clone, Copy, Debug, PartialEq, Eq, Structural)]
pub struct ClientRect {
    pub left: i32,
    pub top: i32,
    pub right: i32,
    pub bottom: i32,
}

impl Surface {
    /// Whether this is the null handle, which names no target.
    pub open spec fn null(self) -> bool {
        self.handle == 0
    }

    /// Tells whether this is the null handle.
    pub fn is_null(&self) -> (null: bool)
        ensures
            null == self.null(),
    {
        self.handle == 0
    }
}

/// The distance `v` reduced to 32 bits without sign.
pub open spec fn wrap32(v: int) -> u32 {
    (v % 0x1_0000_0000) as u32
}

/// Width and height of a client rectangle. For a rectangle whose right and
/// bottom edges are not before its left and top edges these are the plain
/// differences; for any other they wrap around at 32 bits.
pub open spec fn client_size(rect: ClientRect) -> (u32, u32) {
    (wrap32(rect.right - rect.left), wrap32(rect.bottom - rect.top))
}

fn extent(low: i32, high: i32) -> (length: u32)
    ensures
        length == wrap32(high - low),
        low <= high ==> length == high - low,
{
    let distance: i64 = high as i64 - low as i64;
    let length: u32 = #[verifier::truncate] (distance as u32);
    assert(length == distance % 0x1_0000_0000) by (bit_vector)
        requires
            length == distance as u32,
    ;
    length
}

/// Computes width and height of a client rectangle.
pub fn size_of_rect(rect: ClientRect) -> (size: (u32, u32))
    ensures
        size == client_size(rect),
        rect.left <= rect.right ==> size.0 == rect.right - rect.left,
        rect.top <= rect.bottom ==> size.1 == rect.bottom - rect.top,
{
    (extent(rect.left, rect.right), extent(rect.top, rect.bottom))
}

/// Dots per inch at which one point is one pixel.
pub const DEFAULT_DPI: u32 = 96;

/// The dots per inch to go by, given what the window reports: a report of
/// zero means that the window could not tell, and stands for the default.
pub open spec fn dpi_of(reported: u32) -> u32 {
    if reported == 0 {
        DEFAULT_DPI
    } else {
        reported
    }
}

/// Picks the dots per inch to go by. The pixel density of a frame is this
/// over [`DEFAULT_DPI`].
pub fn effective_dpi(reported: u32) -> (dpi: u32)
    ensures
        dpi == dpi_of(reported),
        dpi > 0,
{
    if reported == 0 {
        DEFAULT_DPI
    } else {
        reported
    }
}

/// The address of a graphics entry point, given what the two loaders found
/// for its name, zero standing for "not found": what the context's own loader
/// found, and only where it found nothing, what the lookup in the driver's
/// module found.
pub open spec fn entry_point_of(primary: usize, fallback: usize) -> usize {
    if primary != 0 {
        primary
    } else {
        fallback
    }
}

/// Tells whether the lookup in the driver's module has to be tried for an
/// entry point: exactly where the context's own loader found nothing.
pub fn needs_fallback(primary: usize) -> (needed: bool)
    ensures
        needed == (primary == 0),
        forall|fallback: usize| !needed ==> entry_point_of(primary, fallback) == primary,
{
    primary == 0
}

/// Picks the address of a graphics entry point from what the two loaders
/// found.
pub fn resolve_entry_point(primary: usize, fallback: usize) -> (address: usize)
    ensures
        address == entry_point_of(primary, fallback),
{
    if primary != 0 {
        primary
    } else {
        fallback
    }
}

} // verus!
