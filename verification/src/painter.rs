//! The painter: a movable cursor with a facing direction and a current
//! color, which draws into a `CFRBuffer` as it moves.
//!
//! Movement is toroidal: stepping past an edge of the grid re-enters from
//! the opposite edge, so a painter that starts in bounds stays in bounds.

use vstd::prelude::*;

use crate::buffer::{cell_index, CFRBuffer};
use crate::enums::{next_color, next_direction, CFRColor, CFRDirection};

verus! {

/// The painter's state: facing direction, current color, and position.
#[derive(Debug, Copy, Clone)]
pub struct CFRPainter {
    pub direction: CFRDirection,
    pub color: CFRColor,
    pub x: u32,
    pub y: u32,
}

/// The horizontal component of a unit step in the given direction.
pub open spec fn dir_dx(d: CFRDirection) -> int {
    match d {
        CFRDirection::Up => 0,
        CFRDirection::UpRight => 1,
        CFRDirection::Right => 1,
        CFRDirection::DownRight => 1,
        CFRDirection::Down => 0,
        CFRDirection::DownLeft => -1,
        CFRDirection::Left => -1,
        CFRDirection::UpLeft => -1,
    }
}

/// The vertical component of a unit step in the given direction; positive
/// is downwards (towards larger `y`).
pub open spec fn dir_dy(d: CFRDirection) -> int {
    match d {
        CFRDirection::Up => -1,
        CFRDirection::UpRight => -1,
        CFRDirection::Right => 0,
        CFRDirection::DownRight => 1,
        CFRDirection::Down => 1,
        CFRDirection::DownLeft => 1,
        CFRDirection::Left => 0,
        CFRDirection::UpLeft => -1,
    }
}

/// One coordinate after a unit step of `delta` on an axis of extent `size`,
/// wrapping toroidally: leaving past 0 re-enters at `size - 1` and leaving
/// past `size - 1` re-enters at 0.
pub open spec fn wrap_coord(pos: u32, size: u32, delta: int) -> int {
    if pos == 0 && delta == -1 {
        size - 1
    } else if pos == size - 1 && delta == 1 {
        0
    } else {
        pos + delta
    }
}

/// The painter after one forward step on a `width` by `height` grid:
/// position wrapped toroidally, direction and color unchanged.
pub open spec fn moved_painter(p: CFRPainter, width: u32, height: u32) -> CFRPainter {
    CFRPainter {
        x: wrap_coord(p.x, width, dir_dx(p.direction)) as u32,
        y: wrap_coord(p.y, height, dir_dy(p.direction)) as u32,
        ..p
    }
}

impl Default for CFRPainter {
    /// The same painter `CFRPainter::new` creates.
    fn default() -> (r: CFRPainter)
        ensures
            r == (CFRPainter {
                direction: CFRDirection::Up,
                color: CFRColor::White,
                x: 0,
                y: 0,
            }),
    {
        CFRPainter::new()
    }
}

impl CFRPainter {
    /// Creates a painter facing up, colored white, at the origin.
    pub fn new() -> (r: CFRPainter)
        ensures
            r == (CFRPainter {
                direction: CFRDirection::Up,
                color: CFRColor::White,
                x: 0,
                y: 0,
            }),
    {
        CFRPainter { direction: CFRDirection::Up, color: CFRColor::White, x: 0, y: 0 }
    }

    /// Advances the color one step along the fixed cycle
    /// White -> Black -> Blue -> Green -> Cyan -> Red -> Magenta -> Yellow -> White.
    /// Position and direction are untouched.
    pub fn change_color(&mut self)
        ensures
            *final(self) == (CFRPainter { color: next_color(old(self).color), ..*old(self) }),
    {
        self.color = match self.color {
            CFRColor::White => CFRColor::Black,
            CFRColor::Black => CFRColor::Blue,
            CFRColor::Blue => CFRColor::Green,
            CFRColor::Green => CFRColor::Cyan,
            CFRColor::Cyan => CFRColor::Red,
            CFRColor::Red => CFRColor::Magenta,
            CFRColor::Magenta => CFRColor::Yellow,
            CFRColor::Yellow => CFRColor::White,
        };
    }

    /// Rotates the facing direction 45 degrees along the fixed cycle
    /// Up -> UpRight -> Right -> DownRight -> Down -> DownLeft -> Left -> UpLeft -> Up.
    /// Position and color are untouched.
    pub fn rotate(&mut self)
        ensures
            *final(self) == (CFRPainter { direction: next_direction(old(self).direction), ..*old(self) }),
    {
        self.direction = match self.direction {
            CFRDirection::Up => CFRDirection::UpRight,
            CFRDirection::UpRight => CFRDirection::Right,
            CFRDirection::Right => CFRDirection::DownRight,
            CFRDirection::DownRight => CFRDirection::Down,
            CFRDirection::Down => CFRDirection::DownLeft,
            CFRDirection::DownLeft => CFRDirection::Left,
            CFRDirection::Left => CFRDirection::UpLeft,
            CFRDirection::UpLeft => CFRDirection::Up,
        };
    }

    /// Moves one step in the current direction, wrapping toroidally at the
    /// grid's edges, then writes the current color into the cell at the new
    /// position. This is the painter's only operation with an effect
    /// outside itself.
    pub fn move_forward_and_draw(&mut self, buffer: &mut CFRBuffer)
        requires
            old(buffer).size_ok(),
            old(self).x < old(buffer).width,
            old(self).y < old(buffer).height,
        ensures
            *final(self) == moved_painter(*old(self), old(buffer).width, old(buffer).height),
            final(self).x < final(buffer).width,
            final(self).y < final(buffer).height,
            final(buffer).width == old(buffer).width,
            final(buffer).height == old(buffer).height,
            final(buffer).size_ok(),
            final(buffer).data@ == old(buffer).data@.update(
                cell_index(final(self).x, final(self).y, final(buffer).width),
                final(self).color,
            ),
    {
        let dx: i32 = match self.direction {
            CFRDirection::Up => 0,
            CFRDirection::UpRight => 1,
            CFRDirection::Right => 1,
            CFRDirection::DownRight => 1,
            CFRDirection::Down => 0,
            CFRDirection::DownLeft => -1,
            CFRDirection::Left => -1,
            CFRDirection::UpLeft => -1,
        };
        let dy: i32 = match self.direction {
            CFRDirection::Up => -1,
            CFRDirection::UpRight => -1,
            CFRDirection::Right => 0,
            CFRDirection::DownRight => 1,
            CFRDirection::Down => 1,
            CFRDirection::DownLeft => 1,
            CFRDirection::Left => 0,
            CFRDirection::UpLeft => -1,
        };

        if dx == -1 {
            self.x = if self.x == 0 {
                buffer.width - 1
            } else {
                self.x - 1
            };
        } else if dx == 1 {
            self.x = if self.x == buffer.width - 1 {
                0
            } else {
                self.x + 1
            };
        }

        if dy == -1 {
            self.y = if self.y == 0 {
                buffer.height - 1
            } else {
                self.y - 1
            };
        } else if dy == 1 {
            self.y = if self.y == buffer.height - 1 {
                0
            } else {
                self.y + 1
            };
        }

        // Reading the length pins `width * height` within `usize::MAX`.
        let len: usize = buffer.data.len();
        proof {
            crate::buffer::lemma_cell_index_in_range(self.x, self.y, buffer.width, buffer.height);
        }
        let index: usize = (self.y as usize) * (buffer.width as usize) + (self.x as usize);
        buffer.data[index] = self.color;
    }
}

/// Toroidal wrap-around at the grid's edges: moving left from `x == 0`
/// lands at `width - 1` with `y` unchanged, moving right from
/// `x == width - 1` lands at 0, and likewise for up and down on `y`; a
/// diagonal step wraps each axis independently, so moving up-left from
/// `(0, 0)` lands at `(width - 1, height - 1)`.
pub proof fn lemma_wrap_around(p: CFRPainter, width: u32, height: u32)
    requires
        p.x < width,
        p.y < height,
    ensures
        p.direction == CFRDirection::Left && p.x == 0 ==> moved_painter(p, width, height)
            == (CFRPainter { x: (width - 1) as u32, ..p }),
        p.direction == CFRDirection::Right && p.x == width - 1 ==> moved_painter(p, width, height)
            == (CFRPainter { x: 0, ..p }),
        p.direction == CFRDirection::Up && p.y == 0 ==> moved_painter(p, width, height)
            == (CFRPainter { y: (height - 1) as u32, ..p }),
        p.direction == CFRDirection::Down && p.y == height - 1 ==> moved_painter(p, width, height)
            == (CFRPainter { y: 0, ..p }),
        p.direction == CFRDirection::UpLeft && p.x == 0 && p.y == 0 ==> moved_painter(
            p,
            width,
            height,
        ) == (CFRPainter { x: (width - 1) as u32, y: (height - 1) as u32, ..p }),
        moved_painter(p, width, height).x < width,
        moved_painter(p, width, height).y < height,
        moved_painter(p, width, height).color == p.color,
        moved_painter(p, width, height).direction == p.direction,
{
}

} // verus!
