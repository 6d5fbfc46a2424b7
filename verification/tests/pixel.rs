use zinc::display::buffer::FrameBuffer;
use zinc::display::dirty::DirtyRange;
use zinc::hal::nrf51822::regs::Script;

#[test]
fn set_pixel_switches_one_bit_on() {
    let mut fb = FrameBuffer::new([0u8; 1024]);
    let mut script = Script::new();
    fb.update_display(&mut script);
    fb.set_pixel(true, 5, 19);
    // page 2, bit 3
    assert_eq!(fb.buffer()[2 * 128 + 5], 0b0000_1000);
    for i in 0..1024 {
        if i != 2 * 128 + 5 {
            assert_eq!(fb.buffer()[i], 0);
        }
    }
    assert_eq!(fb.dirty_range(), DirtyRange { first_dirty: 0, last_dirty: 7 });
}

#[test]
fn set_pixel_switches_one_bit_off() {
    let mut fb = FrameBuffer::new([0xFFu8; 1024]);
    fb.set_pixel(false, 127, 63);
    assert_eq!(fb.buffer()[1023], 0b0111_1111);
    fb.set_pixel(false, 0, 0);
    assert_eq!(fb.buffer()[0], 0b1111_1110);
    for i in 1..1023 {
        assert_eq!(fb.buffer()[i], 0xFF);
    }
}

#[test]
fn set_pixel_keeps_the_other_bits_of_the_byte() {
    let mut fb = FrameBuffer::new([0b1010_1010u8; 1024]);
    fb.set_pixel(true, 9, 8);
    assert_eq!(fb.buffer()[128 + 9], 0b1010_1011);
    fb.set_pixel(true, 9, 9);
    assert_eq!(fb.buffer()[128 + 9], 0b1010_1011);
    fb.set_pixel(false, 9, 15);
    assert_eq!(fb.buffer()[128 + 9], 0b0010_1011);
    fb.set_pixel(false, 9, 14);
    assert_eq!(fb.buffer()[128 + 9], 0b0010_1011);
}

#[test]
fn set_pixel_always_invalidates() {
    let mut fb = FrameBuffer::new([0u8; 1024]);
    let mut script = Script::new();
    fb.update_display(&mut script);
    fb.set_pixel(false, 3, 3);
    assert_eq!(*fb.buffer(), [0u8; 1024]);
    assert_eq!(fb.dirty_range(), DirtyRange { first_dirty: 0, last_dirty: 7 });
}

#[test]
fn set_pixel_addresses_by_byte_index() {
    // A column past the right edge lands in the following page.
    let mut fb = FrameBuffer::new([0u8; 1024]);
    fb.set_pixel(true, 200, 2);
    assert_eq!(fb.buffer()[200], 0b0000_0100);
}
