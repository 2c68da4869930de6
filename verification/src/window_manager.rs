//! A minimal window manager: a list of windows drawn back to front.

use vstd::prelude::*;

use crate::graphics::{Color, FbModel, Framebuffer, draw_string_from, spec_fill_rect};

verus! {

/// One window: a filled body with a title drawn near its corner.
pub struct Window {
    pub x: usize,
    pub y: usize,
    pub width: usize,
    pub height: usize,
    pub title: &'static str,
}

/// A window whose geometry and title the drawing arithmetic can carry.
pub open spec fn window_ok(w: Window) -> bool {
    &&& w.x + w.width <= usize::MAX
    &&& w.y + w.height <= usize::MAX
    &&& w.x + 4 + 8 * w.title@.len() + 8 <= usize::MAX
    &&& w.y + 4 + 8 <= usize::MAX
}

/// One window's pixels: its body filled dark blue, its title in white
/// four pixels in from the corner.
pub open spec fn spec_draw_window(m: FbModel, w: Window) -> FbModel {
    draw_string_from(
        spec_fill_rect(m, w.x as int, w.y as int, w.width as int, w.height as int, (Color {
            r: 0,
            g: 0,
            b: 128,
        })),
        w.title@,
        w.x + 4,
        w.y + 4,
        (Color { r: 255, g: 255, b: 255 }),
    )
}

/// The windows from index `i` on, drawn in order.
pub open spec fn draw_windows_from(m: FbModel, ws: Seq<Window>, i: int) -> FbModel
    decreases ws.len() - i,
{
    if i < 0 || i >= ws.len() {
        m
    } else {
        draw_windows_from(spec_draw_window(m, ws[i]), ws, i + 1)
    }
}

/// Basic window manager.
pub struct WindowManager {
    windows: Vec<Window>,
}

impl View for WindowManager {
    type V = Seq<Window>;

    closed spec fn view(&self) -> Seq<Window> {
        self.windows@
    }
}

impl WindowManager {
    /// Every managed window has drawable geometry.
    pub open spec fn wf(&self) -> bool {
        forall|i: int| 0 <= i < self@.len() ==> window_ok(#[trigger] self@[i])
    }

    /// An empty window manager.
    pub fn new() -> (r: WindowManager)
        ensures
            r.wf(),
            r@.len() == 0,
    {
        WindowManager { windows: Vec::new() }
    }

    /// Add a window on top.
    pub fn add_window(&mut self, window: Window)
        requires
            old(self).wf(),
            window_ok(window),
        ensures
            final(self).wf(),
            final(self)@ == old(self)@.push(window),
    {
        self.windows.push(window);
    }

    /// Draw all windows, bottom-most first.
    pub fn draw(&self, fb: &mut Framebuffer)
        requires
            self.wf(),
            old(fb).wf(),
        ensures
            final(fb).wf(),
            final(fb)@ == draw_windows_from(old(fb)@, self@, 0),
    {
        let ghost total = draw_windows_from(old(fb)@, self@, 0);
        let n = self.windows.len();
        let mut i: usize = 0;
        while i < n
            invariant
                self.wf(),
                fb.wf(),
                i <= n,
                n == self@.len(),
                draw_windows_from(fb@, self@, i as int) == total,
            decreases n - i,
        {
            let w = &self.windows[i];
            fb.fill_rect(w.x, w.y, w.width, w.height, Color::new(0, 0, 128));
            fb.draw_string(w.title, w.x + 4, w.y + 4, Color::new(255, 255, 255));
            i = i + 1;
        }
    }
}

} // verus!
