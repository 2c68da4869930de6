//! Software mouse cursor.

use vstd::prelude::*;

use crate::graphics::{Color, Framebuffer, spec_fill_rect};

verus! {

/// A cursor position in signed screen coordinates.
pub struct MouseCursor {
    pub x: isize,
    pub y: isize,
}

impl MouseCursor {
    /// A cursor at the origin.
    pub fn new() -> (r: MouseCursor)
        ensures
            r.x == 0,
            r.y == 0,
    {
        MouseCursor { x: 0, y: 0 }
    }

    /// Move the cursor by the given deltas.
    pub fn move_by(&mut self, dx: isize, dy: isize)
        requires
            isize::MIN <= old(self).x + dx <= isize::MAX,
            isize::MIN <= old(self).y + dy <= isize::MAX,
        ensures
            final(self).x == old(self).x + dx,
            final(self).y == old(self).y + dy,
    {
        self.x = self.x + dx;
        self.y = self.y + dy;
    }

    /// Render the cursor as a small white square, clamped to the
    /// screen's top-left corner when the position is negative.
    pub fn draw(&self, fb: &mut Framebuffer)
        requires
            old(fb).wf(),
        ensures
            final(fb).wf(),
            final(fb)@ == spec_fill_rect(
                old(fb)@,
                if self.x >= 0 {
                    self.x as int
                } else {
                    0
                },
                if self.y >= 0 {
                    self.y as int
                } else {
                    0
                },
                10,
                10,
                (Color { r: 255, g: 255, b: 255 }),
            ),
    {
        let x: usize = if self.x >= 0 {
            self.x as usize
        } else {
            0
        };
        let y: usize = if self.y >= 0 {
            self.y as usize
        } else {
            0
        };
        fb.fill_rect(x, y, 10, 10, Color::new(255, 255, 255));
    }
}

} // verus!
