use ssd1306_driver::script::{draw_frame, init_frame, DRAW_FRAMES, INIT_FRAMES};
use ssd1306_driver::{Frame, SSD1306_LCDHEIGHT, SSD1306_LCDWIDTH};

#[test]
fn panel_is_128_by_64() {
    assert_eq!(SSD1306_LCDWIDTH, 128);
    assert_eq!(SSD1306_LCDHEIGHT, 64);
    assert_eq!(SSD1306_LCDWIDTH * SSD1306_LCDHEIGHT / 8, 1024);
}

#[test]
fn initialisation_table_byte_by_byte() {
    let expected = [
        Frame::Command0(0xae),
        Frame::Command1(0xd5, 0x80),
        Frame::Command1(0xa8, 0x3f),
        Frame::Command1(0xd3, 0x00),
        Frame::Command0(0x40),
        Frame::Command1(0x8d, 0x14),
        Frame::Command1(0x20, 0x00),
        Frame::Command0(0xa1),
        Frame::Command0(0xc8),
        Frame::Command1(0xda, 0x12),
        Frame::Command1(0x81, 0xcf),
        Frame::Command1(0xd9, 0xf1),
        Frame::Command1(0xdb, 0x40),
        Frame::Command0(0xa4),
        Frame::Command0(0xa6),
        Frame::Command0(0x2e),
        Frame::Command0(0xaf),
    ];
    assert_eq!(INIT_FRAMES, 17);
    assert_eq!(expected.len(), INIT_FRAMES);
    for (step, frame) in expected.iter().enumerate() {
        assert_eq!(init_frame(step, 64), Some(*frame), "frame {}", step);
    }
}

#[test]
fn initialisation_table_ends_after_seventeen_frames() {
    assert_eq!(init_frame(16, 64), Some(Frame::Command0(0xaf)));
    assert_eq!(init_frame(17, 64), None);
    assert_eq!(init_frame(18, 64), None);
    assert_eq!(init_frame(usize::MAX, 64), None);
}

#[test]
fn multiplex_ratio_is_height_less_one() {
    assert_eq!(init_frame(2, 64), Some(Frame::Command1(0xa8, 63)));
    assert_eq!(init_frame(2, 32), Some(Frame::Command1(0xa8, 31)));
    assert_eq!(init_frame(2, 16), Some(Frame::Command1(0xa8, 15)));
    assert_eq!(init_frame(2, 1), Some(Frame::Command1(0xa8, 0)));
    assert_eq!(init_frame(2, 256), Some(Frame::Command1(0xa8, 255)));
    for height in 1usize..=256 {
        assert_eq!(
            init_frame(2, height),
            Some(Frame::Command1(0xa8, (height - 1) as u8))
        );
    }
}

#[test]
fn only_the_multiplex_ratio_depends_on_the_height() {
    for step in 0..17 {
        if step != 2 {
            assert_eq!(init_frame(step, 32), init_frame(step, 64), "frame {}", step);
        }
    }
}

#[test]
fn redraw_table_for_the_full_panel() {
    let payload = [0xa5u8; 16];
    assert_eq!(DRAW_FRAMES, 3);
    assert_eq!(draw_frame(0, 128, &payload), Some(Frame::Command2(0x21, 0, 127)));
    assert_eq!(draw_frame(1, 128, &payload), Some(Frame::Command2(0x22, 0, 7)));
    assert_eq!(draw_frame(2, 128, &payload), Some(Frame::Data(&[0xa5; 16])));
    assert_eq!(draw_frame(3, 128, &payload), None);
    assert_eq!(draw_frame(usize::MAX, 128, &payload), None);
}

#[test]
fn column_window_ends_at_width_less_one() {
    assert_eq!(draw_frame(0, 96, &[]), Some(Frame::Command2(0x21, 0, 95)));
    assert_eq!(draw_frame(0, 1, &[]), Some(Frame::Command2(0x21, 0, 0)));
    assert_eq!(draw_frame(0, 256, &[]), Some(Frame::Command2(0x21, 0, 255)));
}

#[test]
fn page_window_is_always_eight_pages() {
    for width in [1usize, 64, 96, 128, 256] {
        assert_eq!(draw_frame(1, width, &[]), Some(Frame::Command2(0x22, 0, 7)));
    }
}
