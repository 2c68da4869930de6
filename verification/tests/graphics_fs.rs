use font8x8::UnicodeFonts;
use orbita::fs::ext2::{Ext2Fs, Ext2Node};
use orbita::fs::orbitafs::OrbitaNode;
use orbita::fs::vfs::{
    BlockDevice, DirOps, FileOps, FileType, FilesystemOps, FsError, Permissions, VfsNode,
};
use orbita::graphics::{Color, Framebuffer, GraphicsWriter, PixelFormat, draw_ui};
use orbita::graphics_accel::{GopAccelerator, GraphicsAccelerator};
use orbita::mouse::MouseCursor;
use orbita::window_manager::{Window, WindowManager};

fn small_fb() -> Framebuffer {
    Framebuffer::new(64, 48, 64, 3, PixelFormat::RGB)
}

fn pixel(fb: &Framebuffer, x: usize, y: usize) -> (u8, u8, u8) {
    let off = (y * 64 + x) * 3;
    let back = fb.back();
    (back[off], back[off + 1], back[off + 2])
}

#[test]
fn draw_pixel_stores_channels_in_format_order() {
    let mut fb = small_fb();
    fb.draw_pixel(2, 1, Color::new(10, 20, 30));
    assert_eq!(pixel(&fb, 2, 1), (10, 20, 30));
    // off-screen writes clip silently
    fb.draw_pixel(64, 0, Color::new(99, 99, 99));
    fb.draw_pixel(0, 48, Color::new(99, 99, 99));
    assert_eq!(pixel(&fb, 0, 0), (0, 0, 0));

    let mut bgr = Framebuffer::new(16, 1, 16, 4, PixelFormat::BGR);
    bgr.draw_pixel(0, 0, Color::new(10, 20, 30));
    assert_eq!(bgr.back()[0], 30);
    assert_eq!(bgr.back()[1], 20);
    assert_eq!(bgr.back()[2], 10);
}

#[test]
fn fill_rect_covers_exactly_the_rectangle() {
    let mut fb = small_fb();
    fb.fill_rect(1, 2, 3, 2, Color::new(7, 8, 9));
    assert_eq!(pixel(&fb, 1, 2), (7, 8, 9));
    assert_eq!(pixel(&fb, 3, 3), (7, 8, 9));
    assert_eq!(pixel(&fb, 4, 2), (0, 0, 0));
    assert_eq!(pixel(&fb, 1, 4), (0, 0, 0));
}

#[test]
fn swap_buffers_publishes_back_buffer() {
    let mut fb = small_fb();
    fb.draw_pixel(0, 0, Color::new(1, 2, 3));
    assert_eq!(fb.front()[0], 0);
    fb.swap_buffers();
    assert_eq!(fb.front()[0], 1);
    assert_eq!(fb.front()[1], 2);
    assert_eq!(fb.front()[2], 3);
}

#[test]
fn draw_char_matches_the_font_table() {
    let mut fb = small_fb();
    let color = Color::new(255, 255, 255);
    fb.draw_char('A', 0, 0, color);
    let glyph = font8x8::BASIC_FONTS.get('A').expect("basic font covers ascii");
    let mut any_set = false;
    for (dy, row) in glyph.iter().enumerate() {
        for dx in 0..8 {
            let expected = row & (1 << (7 - dx)) != 0;
            let lit = pixel(&fb, dx, dy) == (255, 255, 255);
            assert_eq!(lit, expected);
            any_set = any_set || expected;
        }
    }
    assert!(any_set);
}

#[test]
fn draw_string_advances_cells() {
    let mut fb = small_fb();
    fb.draw_string("AA", 0, 0, Color::new(255, 0, 0));
    // the two cells show the same glyph, eight pixels apart
    for dy in 0..8 {
        for dx in 0..8 {
            assert_eq!(pixel(&fb, dx, dy), pixel(&fb, dx + 8, dy));
        }
    }
}

#[test]
fn clear_floods_the_screen() {
    let mut fb = small_fb();
    fb.clear(Color::new(5, 5, 5));
    assert_eq!(pixel(&fb, 0, 0), (5, 5, 5));
    assert_eq!(pixel(&fb, 63, 47), (5, 5, 5));
}

#[test]
fn writer_wraps_at_margin_and_newline() {
    let mut fb = small_fb();
    let mut writer = GraphicsWriter::new();
    assert_eq!(writer.position(), (10, 10));
    writer.write_string(&mut fb, "AB");
    assert_eq!(writer.position(), (26, 10));
    writer.write_string(&mut fb, "\n");
    assert_eq!(writer.position(), (10, 20));
    // width 64: after the sixth glyph the pen passes 64 - 10 and
    // returns to the margin one text row down
    writer.write_string(&mut fb, "WRAPPING!");
    assert_eq!(writer.position(), (34, 30));
}

#[test]
fn accelerator_matches_software_fill() {
    let mut fb = small_fb();
    let mut reference = small_fb();
    let mut accel = GopAccelerator;
    accel.fill_rect_accel(&mut fb, 2, 2, 4, 4, Color::new(1, 2, 3));
    reference.fill_rect(2, 2, 4, 4, Color::new(1, 2, 3));
    assert_eq!(fb.back(), reference.back());
}

#[test]
fn draw_ui_paints_task_bar_and_terminal() {
    let mut fb = Framebuffer::new(800, 600, 800, 3, PixelFormat::RGB);
    draw_ui(&mut fb);
    let off = |x: usize, y: usize| (y * 800 + x) * 3;
    let back = fb.back();
    // task bar along the bottom edge
    assert_eq!(back[off(0, 599)], 64);
    // terminal title bar and body
    assert_eq!(back[off(55, 55)], 128);
    assert_eq!(back[off(55, 100)], 0);
}

#[test]
fn mouse_cursor_moves_and_draws() {
    let mut cursor = MouseCursor::new();
    assert_eq!((cursor.x, cursor.y), (0, 0));
    cursor.move_by(5, 3);
    cursor.move_by(-2, 1);
    assert_eq!((cursor.x, cursor.y), (3, 4));

    let mut fb = small_fb();
    cursor.draw(&mut fb);
    assert_eq!(pixel(&fb, 3, 4), (255, 255, 255));
    assert_eq!(pixel(&fb, 12, 13), (255, 255, 255));
    assert_eq!(pixel(&fb, 13, 4), (0, 0, 0));

    // negative positions clamp to the corner
    let mut cursor = MouseCursor::new();
    cursor.move_by(-7, -7);
    let mut fb = small_fb();
    cursor.draw(&mut fb);
    assert_eq!(pixel(&fb, 0, 0), (255, 255, 255));
}

#[test]
fn window_manager_draws_windows() {
    let mut wm = WindowManager::new();
    wm.add_window(Window { x: 4, y: 4, width: 20, height: 16, title: "one" });
    let mut fb = small_fb();
    wm.draw(&mut fb);
    // window body is dark blue
    assert_eq!(pixel(&fb, 5, 14), (0, 0, 128));
    assert_eq!(pixel(&fb, 2, 2), (0, 0, 0));
}

struct NullDevice;

impl BlockDevice for NullDevice {
    fn read_blocks(&self, _lba: u64, _buf: &mut Vec<u8>) -> Result<(), FsError> {
        Err(FsError::IoError)
    }

    fn write_blocks(&self, _lba: u64, _buf: &[u8]) -> Result<(), FsError> {
        Err(FsError::IoError)
    }

    fn sector_size(&self) -> usize {
        512
    }
}

#[test]
fn permissions_default_is_read_write() {
    let perms = Permissions::new();
    assert!(perms.read);
    assert!(perms.write);
    assert!(!perms.execute);
}

#[test]
fn ext2_placeholders_answer_unsupported() {
    let fs = Ext2Fs::new(NullDevice);
    let root = fs.root();
    assert_eq!(root.node_type(), FileType::Directory);
    let meta = root.metadata().unwrap();
    assert_eq!(meta.size, 0);
    assert_eq!(meta.file_type, FileType::Directory);
    let mut buf = vec![0u8; 16];
    assert_eq!(FileOps::read(&root, 0, &mut buf), Err(FsError::Unsupported));
    assert_eq!(FileOps::sync(&root), Ok(()));
    assert_eq!(root.readdir().unwrap().len(), 0);
    assert!(matches!(root.lookup("missing"), Err(FsError::NotFound)));
    assert_eq!(fs.device().sector_size(), 512);
    assert_eq!(FilesystemOps::sync(&fs), Ok(()));
    assert_eq!(fs.unmount(), Ok(()));
    assert_eq!(FsError::NotFound.as_str(), "not found");
    assert_eq!(FsError::Unsupported.as_str(), "operation unsupported");

    let node = Ext2Node::new("data", FileType::Regular);
    assert_eq!(node.node_type, FileType::Regular);
    let node = OrbitaNode::new("journal", FileType::Regular);
    assert_eq!(node.name, "journal");
}
