use loader::accel;
use loader::accel::BlitEngine;
use loader::accel::BlitEvent;
use loader::color::Color;
use loader::color::get_color_table;
use loader::geometry::Offset;
use loader::geometry::Rect;
use loader::soft;

const FG: u16 = 0xFFFF;
const BG: u16 = 0x0000;

#[test]
fn engine_blend_and_wait_commit_one_row() {
    let fg = Color::from_u16(FG);
    let bg = Color::from_u16(BG);
    let mut e = BlitEngine::setup_4bpp_over_4bpp(fg, bg, Color::from_u16(0xF800));
    e.wait_for_transfer();
    assert_eq!(e.waits, 1);
    assert_eq!(e.committed.len(), 0);
    // loader nibbles 0 and 5, no icon
    e.start_blend(&[0x00], &[0x50], 2, 0);
    assert!(e.pending.is_some());
    assert_eq!(e.committed.len(), 0);
    e.wait_for_transfer();
    assert!(e.pending.is_none());
    assert_eq!(e.waits, 2);
    let table = get_color_table(fg, bg);
    assert_eq!(e.committed.len(), 2);
    assert_eq!(e.committed[0].to_u16(), table.get(0).to_u16());
    assert_eq!(e.committed[1].to_u16(), table.get(5).to_u16());
}

#[test]
fn engine_icon_nibble_blends_icon_color() {
    let fg = Color::from_u16(FG);
    let bg = Color::from_u16(BG);
    let icon_color = Color::from_u16(0xF800);
    let mut e = BlitEngine::setup_4bpp_over_4bpp(fg, bg, icon_color);
    e.wait_for_transfer();
    // icon nibble 15 replaces the pixel entirely; nibble 0 keeps it
    e.start_blend(&[0x0F], &[0x00], 2, 0);
    e.wait_for_transfer();
    assert_eq!(e.committed[0].to_u16(), 0xF800);
    assert_eq!(e.committed[1].to_u16(), BG);
}

#[test]
fn waits_equal_scanlines_plus_one() {
    let r = Rect { x0: 0, y0: 0, x1: 8, y1: 4 };
    let e = accel::loader_rust(r, Color::from_u16(FG), Color::from_u16(BG), 0, false, None);
    // one wait per issued transfer plus the trailing wait
    assert_eq!(e.waits, 5);
    assert_eq!(e.events.len(), 9);
    assert_eq!(e.committed.len(), 32);
    assert!(e.pending.is_none());
}

#[test]
fn event_log_alternates_wait_blend_with_alternating_slots() {
    let r = Rect { x0: 0, y0: 0, x1: 8, y1: 4 };
    let e = accel::loader_rust(r, Color::from_u16(FG), Color::from_u16(BG), 0, false, None);
    for (i, ev) in e.events.iter().enumerate() {
        if i % 2 == 0 {
            assert_eq!(*ev, BlitEvent::Wait);
        } else {
            let row = (i / 2) as u8;
            assert_eq!(*ev, BlitEvent::Blend { slot: row % 2 });
        }
    }
    // every blend comes right after a wait: never two blends in a row
    for pair in e.events.windows(2) {
        if let BlitEvent::Blend { .. } = pair[1] {
            assert_eq!(pair[0], BlitEvent::Wait);
        }
    }
}

#[test]
fn hardware_stream_matches_software_stream_without_icon() {
    let r = Rect { x0: 60, y0: 60, x1: 180, y1: 180 };
    let fg = Color::from_u16(FG);
    let bg = Color::from_u16(BG);
    for progress in [0, 250, 501, 1000] {
        let e = accel::loader_rust(r, fg, bg, progress, false, None);
        let f = soft::loader_rust(r, fg, bg, progress, false, None);
        assert_eq!(e.committed.len(), f.pixels.len());
        for i in 0..f.pixels.len() {
            assert_eq!(e.committed[i].to_u16(), f.pixels[i].to_u16(), "progress {progress} pixel {i}");
        }
    }
}

#[test]
fn hardware_stream_matches_software_on_offscreen_rect() {
    // a rectangle hanging off the screen on all four sides: off-window
    // pixels pack as intensity 0 and blend to plain background
    let r = Rect { x0: -6, y0: -4, x1: 6, y1: 244 };
    let fg = Color::from_u16(FG);
    let bg = Color::from_u16(BG);
    let e = accel::loader_rust(r, fg, bg, 700, false, None);
    let f = soft::loader_rust(r, fg, bg, 700, false, None);
    assert_eq!(e.waits as i32, (r.y1 - r.y0) + 1);
    assert_eq!(e.committed.len(), f.pixels.len());
    for i in 0..f.pixels.len() {
        assert_eq!(e.committed[i].to_u16(), f.pixels[i].to_u16(), "pixel {i}");
    }
}

#[test]
fn hardware_stream_matches_software_stream_with_icon() {
    // an icon well inside the inner disk with opaque nibbles renders
    // identically on both backends
    let r = Rect { x0: 60, y0: 60, x1: 180, y1: 180 };
    let fg = Color::from_u16(FG);
    let bg = Color::from_u16(BG);
    let mut bitmap = vec![0xFFu8; 4];
    bitmap.resize(2048, 0);
    let icon = Some((bitmap.as_slice(), Color::from_u16(0xF800), Offset { x: 4, y: 2 }));
    let e = accel::loader_rust(r, fg, bg, 0, false, icon);
    let f = soft::loader_rust(r, fg, bg, 0, false, icon);
    assert_eq!(e.committed.len(), f.pixels.len());
    for i in 0..f.pixels.len() {
        assert_eq!(e.committed[i].to_u16(), f.pixels[i].to_u16(), "pixel {i}");
    }
}
