//! Drawing into a frame buffer of 32-bit pixels.

use vstd::prelude::*;

verus! {

/// Pixels in a row of the frame buffer.
pub const FRAME_WIDTH: u32 = 640;

/// Rows of the frame buffer.
pub const FRAME_HEIGHT: u32 = 480;

/// A rectangle of pixels, from its top left corner.
#[derive(Debug, Clone, Copy, PartialEq, Eq)]
pub struct Rectangle {
    pub x: u32,
    pub y: u32,
    pub xlen: u32,
    pub ylen: u32,
}

/// The place of the pixel `(x, y)` in the frame buffer, counted in
/// pixels from its start.
pub open spec fn spec_pixel_index(x: u32, y: u32) -> int {
    y * FRAME_WIDTH + x
}

/// Computes the place of the pixel `(x, y)` in the frame buffer.
pub fn pixel_index(x: u32, y: u32) -> (index: u64)
    ensures
        index == spec_pixel_index(x, y),
{
    (y as u64) * 640 + (x as u64)
}

/// Writes `color` to the pixel `(x, y)` of `frame`. Yields 0 when the
/// pixel was written and -1 when it lies beyond the frame.
pub fn libgui_pixel_write(frame: &mut Vec<u32>, x: u32, y: u32, color: u32) -> (status: isize)
    ensures
        spec_pixel_index(x, y) < old(frame)@.len() ==> status == 0 && final(frame)@ == old(
            frame,
        )@.update(spec_pixel_index(x, y), color),
        spec_pixel_index(x, y) >= old(frame)@.len() ==> status == -1 && final(frame)@ == old(
            frame,
        )@,
{
    let index = pixel_index(x, y);
    if index < frame.len() as u64 {
        frame.set(index as usize, color);
        0
    } else {
        -1
    }
}

/// Whether the pixel at `index` of the frame lies in `rect`: it is the
/// pixel `(rect.x + dx, rect.y + dy)` for a column `dx` and a row `dy` of
/// the rectangle.
pub open spec fn in_rectangle(rect: Rectangle, index: int) -> bool {
    exists|dx: int, dy: int|
        0 <= dx < rect.xlen && 0 <= dy < rect.ylen && index == #[trigger] rectangle_pixel(
            rect,
            dx,
            dy,
        )
}

/// The place in the frame buffer of the pixel in column `dx` and row
/// `dy` of `rect`.
pub open spec fn rectangle_pixel(rect: Rectangle, dx: int, dy: int) -> int {
    (rect.y + dy) * FRAME_WIDTH + (rect.x + dx)
}

/// Fills `rect` with `hex_color`: every pixel of the frame that lies in
/// the rectangle takes the colour, every other pixel keeps its own.
pub fn libgui_fill_rect(frame: &mut Vec<u32>, rect: &Rectangle, hex_color: u32)
    ensures
        final(frame)@.len() == old(frame)@.len(),
        forall|index: int|
            0 <= index < old(frame)@.len() ==> #[trigger] final(frame)@[index] == if in_rectangle(
                *rect,
                index,
            ) {
                hex_color
            } else {
                old(frame)@[index]
            },
{
    let mut x: u32 = 0;
    while x < rect.xlen
        invariant
            x <= rect.xlen,
            frame@.len() == old(frame)@.len(),
            forall|index: int|
                0 <= index < frame@.len() ==> #[trigger] frame@[index] == if exists|
                    dx: int,
                    dy: int,
                |
                    0 <= dx < x && 0 <= dy < rect.ylen && index == #[trigger] rectangle_pixel(
                        *rect,
                        dx,
                        dy,
                    ) {
                    hex_color
                } else {
                    old(frame)@[index]
                },
        decreases rect.xlen - x,
    {
        let ghost column_start = frame@;
        let mut y: u32 = 0;
        while y < rect.ylen
            invariant
                x < rect.xlen,
                y <= rect.ylen,
                frame@.len() == old(frame)@.len(),
                column_start.len() == frame@.len(),
                forall|index: int|
                    0 <= index < frame@.len() ==> #[trigger] frame@[index] == if exists|dy: int|
                        0 <= dy < y && index == #[trigger] rectangle_pixel(*rect, x as int, dy) {
                        hex_color
                    } else {
                        column_start[index]
                    },
            decreases rect.ylen - y,
        {
            let ghost before = frame@;
            let index = (y as u64 + rect.y as u64) * 640 + (x as u64 + rect.x as u64);
            if index < frame.len() as u64 {
                frame.set(index as usize, hex_color);
            }
            assert(index == rectangle_pixel(*rect, x as int, y as int));
            assert forall|i: int| 0 <= i < frame@.len() implies #[trigger] frame@[i] == if exists|
                dy: int,
            |
                0 <= dy < y + 1 && i == #[trigger] rectangle_pixel(*rect, x as int, dy) {
                hex_color
            } else {
                column_start[i]
            } by {
                if i == index {
                    assert(0 <= y < y + 1 && i == rectangle_pixel(*rect, x as int, y as int));
                } else if exists|dy: int|
                    0 <= dy < y + 1 && i == #[trigger] rectangle_pixel(*rect, x as int, dy) {
                    let dy = choose|dy: int|
                        0 <= dy < y + 1 && i == #[trigger] rectangle_pixel(*rect, x as int, dy);
                    assert(dy != y);
                    assert(0 <= dy < y && i == rectangle_pixel(*rect, x as int, dy));
                }
            }
            y += 1;
        }
        assert forall|i: int| 0 <= i < frame@.len() implies #[trigger] frame@[i] == if exists|
            dx: int,
            dy: int,
        |
            0 <= dx < x + 1 && 0 <= dy < rect.ylen && i == #[trigger] rectangle_pixel(
                *rect,
                dx,
                dy,
            ) {
            hex_color
        } else {
            old(frame)@[i]
        } by {
            let in_column = exists|dy: int|
                0 <= dy < rect.ylen && i == #[trigger] rectangle_pixel(*rect, x as int, dy);
            let in_before = exists|dx: int, dy: int|
                0 <= dx < x && 0 <= dy < rect.ylen && i == #[trigger] rectangle_pixel(
                    *rect,
                    dx,
                    dy,
                );
            let in_after = exists|dx: int, dy: int|
                0 <= dx < x + 1 && 0 <= dy < rect.ylen && i == #[trigger] rectangle_pixel(
                    *rect,
                    dx,
                    dy,
                );
            if in_column {
                let dy = choose|dy: int|
                    0 <= dy < rect.ylen && i == #[trigger] rectangle_pixel(*rect, x as int, dy);
                assert(0 <= x < x + 1 && 0 <= dy < rect.ylen && i == rectangle_pixel(
                    *rect,
                    x as int,
                    dy,
                ));
            } else if in_before {
                let (dx, dy) = choose|dx: int, dy: int|
                    0 <= dx < x && 0 <= dy < rect.ylen && i == #[trigger] rectangle_pixel(
                        *rect,
                        dx,
                        dy,
                    );
                assert(0 <= dx < x + 1 && 0 <= dy < rect.ylen && i == rectangle_pixel(
                    *rect,
                    dx,
                    dy,
                ));
            } else if in_after {
                let (dx, dy) = choose|dx: int, dy: int|
                    0 <= dx < x + 1 && 0 <= dy < rect.ylen && i == #[trigger] rectangle_pixel(
                        *rect,
                        dx,
                        dy,
                    );
                if dx == x {
                    assert(0 <= dy < rect.ylen && i == rectangle_pixel(*rect, x as int, dy));
                } else {
                    assert(0 <= dx < x && 0 <= dy < rect.ylen && i == rectangle_pixel(
                        *rect,
                        dx,
                        dy,
                    ));
                }
            }
        }
        x += 1;
    }
}

} // verus!
