use zinc::display::buffer::FrameBuffer;
use zinc::display::dirty::DirtyRange;
use zinc::display::image::Image;
use zinc::display::number::font_is_wf;
use zinc::hal::nrf51822::regs::Script;

const GLYPHS: [[u8; 6]; 10] = [
    [0x01, 0x02, 0x03, 0x04, 0x05, 0x06],
    [0x11, 0x12, 0x13, 0x14, 0x15, 0x16],
    [0x21, 0x22, 0x23, 0x24, 0x25, 0x26],
    [0x31, 0x32, 0x33, 0x34, 0x35, 0x36],
    [0x41, 0x42, 0x43, 0x44, 0x45, 0x46],
    [0x51, 0x52, 0x53, 0x54, 0x55, 0x56],
    [0x61, 0x62, 0x63, 0x64, 0x65, 0x66],
    [0x71, 0x72, 0x73, 0x74, 0x75, 0x76],
    [0x81, 0x82, 0x83, 0x84, 0x85, 0x86],
    [0x91, 0x92, 0x93, 0x94, 0x95, 0x96],
];

fn font() -> [Image<'static>; 10] {
    [
        Image { data: &GLYPHS[0], width: 6, height: 8 },
        Image { data: &GLYPHS[1], width: 6, height: 8 },
        Image { data: &GLYPHS[2], width: 6, height: 8 },
        Image { data: &GLYPHS[3], width: 6, height: 8 },
        Image { data: &GLYPHS[4], width: 6, height: 8 },
        Image { data: &GLYPHS[5], width: 6, height: 8 },
        Image { data: &GLYPHS[6], width: 6, height: 8 },
        Image { data: &GLYPHS[7], width: 6, height: 8 },
        Image { data: &GLYPHS[8], width: 6, height: 8 },
        Image { data: &GLYPHS[9], width: 6, height: 8 },
    ]
}

fn clean(fill: u8) -> FrameBuffer {
    let mut fb = FrameBuffer::new([fill; 1024]);
    let mut script = Script::new();
    fb.update_display(&mut script);
    fb
}

/// The store with the glyphs of `digits` at the given columns of `row`.
fn expect(fill: u8, row: usize, glyphs: &[(i32, usize)]) -> [u8; 1024] {
    let mut want = [fill; 1024];
    for &(x, digit) in glyphs {
        for c in 0..6i32 {
            let col = x + c;
            if (0..128).contains(&col) {
                want[row * 128 + col as usize] = GLYPHS[digit][c as usize];
            }
        }
    }
    want
}

#[test]
fn right_aligned_zero_draws_nothing() {
    let mut fb = clean(0xEE);
    fb.draw_num_right(&font(), 0, 64, 3);
    assert_eq!(*fb.buffer(), [0xEE; 1024]);
    assert_eq!(fb.dirty_range(), DirtyRange { first_dirty: 3, last_dirty: 3 });
}

#[test]
fn left_aligned_zero_draws_one_zero_glyph() {
    let mut fb = clean(0xEE);
    fb.draw_num_left(&font(), 0, 64, 3);
    assert_eq!(*fb.buffer(), expect(0xEE, 3, &[(64, 0)]));
    assert_eq!(fb.dirty_range(), DirtyRange { first_dirty: 3, last_dirty: 3 });
}

#[test]
fn right_aligned_digits_end_left_of_x() {
    let mut fb = clean(0);
    fb.draw_num_right(&font(), 123, 30, 1);
    assert_eq!(*fb.buffer(), expect(0, 1, &[(24, 3), (18, 2), (12, 1)]));
    assert_eq!(fb.dirty_range(), DirtyRange { first_dirty: 1, last_dirty: 1 });
}

#[test]
fn left_aligned_digits_start_at_x() {
    let mut fb = clean(0);
    fb.draw_num_left(&font(), 123, 30, 6);
    assert_eq!(*fb.buffer(), expect(0, 6, &[(30, 1), (36, 2), (42, 3)]));
    assert_eq!(fb.dirty_range(), DirtyRange { first_dirty: 6, last_dirty: 6 });
}

#[test]
fn inner_and_trailing_zeros_are_drawn() {
    let mut fb = clean(0xFF);
    fb.draw_num_left(&font(), 1050, 0, 0);
    assert_eq!(*fb.buffer(), expect(0xFF, 0, &[(0, 1), (6, 0), (12, 5), (18, 0)]));
    let mut fb = clean(0xFF);
    fb.draw_num_right(&font(), 1050, 24, 0);
    assert_eq!(*fb.buffer(), expect(0xFF, 0, &[(0, 1), (6, 0), (12, 5), (18, 0)]));
}

#[test]
fn single_digits_pick_their_glyph() {
    for d in 1..10u32 {
        let mut fb = clean(0);
        fb.draw_num_right(&font(), d, 6, 7);
        assert_eq!(*fb.buffer(), expect(0, 7, &[(0, d as usize)]));
        let mut fb = clean(0);
        fb.draw_num_left(&font(), d, 0, 7);
        assert_eq!(*fb.buffer(), expect(0, 7, &[(0, d as usize)]));
    }
}

#[test]
fn ten_digit_numbers_are_rendered_in_full() {
    let mut fb = clean(0);
    fb.draw_num_left(&font(), 4_294_967_295, 10, 2);
    let want = expect(
        0,
        2,
        &[
            (10, 4),
            (16, 2),
            (22, 9),
            (28, 4),
            (34, 9),
            (40, 6),
            (46, 7),
            (52, 2),
            (58, 9),
            (64, 5),
        ],
    );
    assert_eq!(*fb.buffer(), want);
    let mut fb = clean(0);
    fb.draw_num_right(&font(), 4_294_967_295, 70, 2);
    assert_eq!(*fb.buffer(), want);

    let mut fb = clean(0);
    fb.draw_num_right(&font(), 1_000_000_000, 60, 4);
    assert_eq!(
        *fb.buffer(),
        expect(
            0,
            4,
            &[
                (0, 1),
                (6, 0),
                (12, 0),
                (18, 0),
                (24, 0),
                (30, 0),
                (36, 0),
                (42, 0),
                (48, 0),
                (54, 0)
            ]
        )
    );
}

#[test]
fn right_aligned_digits_are_clipped_at_the_left_edge() {
    let mut fb = clean(0);
    fb.draw_num_right(&font(), 98765, 16, 5);
    // 5 at 10, 6 at 4, 7 at -2, 8 at -8 and 9 at -14 are off the panel
    assert_eq!(*fb.buffer(), expect(0, 5, &[(10, 5), (4, 6), (-2, 7)]));
}

#[test]
fn left_aligned_digits_are_clipped_at_the_right_edge() {
    let mut fb = clean(0);
    fb.draw_num_left(&font(), 98765, 118, 5);
    // 9 at 118, 8 at 124, 7 at 130 and beyond are off the panel
    assert_eq!(*fb.buffer(), expect(0, 5, &[(118, 9), (124, 8)]));
}

#[test]
fn numbers_far_right_of_the_panel_only_mark_the_page() {
    let mut fb = clean(0x11);
    fb.draw_num_left(&font(), 42, 128, 2);
    assert_eq!(*fb.buffer(), [0x11; 1024]);
    assert_eq!(fb.dirty_range(), DirtyRange { first_dirty: 2, last_dirty: 2 });
    let mut fb = clean(0x11);
    fb.draw_num_left(&font(), 42, u16::MAX, 2);
    assert_eq!(*fb.buffer(), [0x11; 1024]);
    fb.draw_num_right(&font(), 42, u16::MAX, 2);
    assert_eq!(*fb.buffer(), [0x11; 1024]);
    fb.draw_num_right(&font(), 42, 140, 2);
    assert_eq!(*fb.buffer(), [0x11; 1024]);
    fb.draw_num_right(&font(), 42, 0, 2);
    assert_eq!(*fb.buffer(), [0x11; 1024]);
    assert_eq!(fb.dirty_range(), DirtyRange { first_dirty: 2, last_dirty: 2 });
}

#[test]
fn numbers_extend_the_dirty_span() {
    let mut fb = clean(0);
    fb.mark_dirty(6);
    fb.draw_num_right(&font(), 7, 50, 2);
    assert_eq!(fb.dirty_range(), DirtyRange { first_dirty: 2, last_dirty: 6 });
}

#[test]
fn font_validity() {
    assert!(font_is_wf(&font()));
    let mut tall = font();
    tall[9] = Image { data: &GLYPHS[9], width: 3, height: 16 };
    assert!(!font_is_wf(&tall));
    let mut short = font();
    short[0] = Image { data: &GLYPHS[0][..5], width: 6, height: 8 };
    assert!(!font_is_wf(&short));
    let mut narrow = font();
    narrow[4] = Image { data: &GLYPHS[4][..2], width: 2, height: 8 };
    assert!(font_is_wf(&narrow));
}
