//! Hardware-accelerated drawing capability.

use vstd::prelude::*;

use crate::graphics::{Color, Framebuffer, spec_fill_rect};

verus! {

/// An accelerator fills rectangles with the exact effect of the
/// software path, however the hardware gets there.
pub trait GraphicsAccelerator {
    fn fill_rect_accel(
        &mut self,
        fb: &mut Framebuffer,
        x: usize,
        y: usize,
        width: usize,
        height: usize,
        color: Color,
    )
        requires
            old(fb).wf(),
            x + width <= usize::MAX,
            y + height <= usize::MAX,
        ensures
            final(fb).wf(),
            final(fb)@ == spec_fill_rect(
                old(fb)@,
                x as int,
                y as int,
                width as int,
                height as int,
                color,
            ),
    ;
}

/// Accelerator for the firmware graphics output: still falls back to
/// software drawing.
pub struct GopAccelerator;

impl GraphicsAccelerator for GopAccelerator {
    fn fill_rect_accel(
        &mut self,
        fb: &mut Framebuffer,
        x: usize,
        y: usize,
        width: usize,
        height: usize,
        color: Color,
    ) {
        // Fallback to software drawing for now
        fb.fill_rect(x, y, width, height, color);
    }
}

} // verus!
