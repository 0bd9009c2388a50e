use sx126x::device::{
    read_buffer_header, read_register_header, write_buffer_header, write_register_header, Device,
};

#[test]
fn device_hands_back_its_bus_interface() {
    let dev = Device::new(42u8);
    assert_eq!(dev.release(), 42u8);
}

#[test]
fn register_read_frame_has_opcode_address_and_dummy_byte() {
    assert_eq!(read_register_header(0x0580), [0x1D, 0x05, 0x80, 0x00]);
    assert_eq!(read_register_header(0x08AC), [0x1D, 0x08, 0xAC, 0x00]);
}

#[test]
fn register_write_frame_has_opcode_and_address() {
    assert_eq!(write_register_header(0x06C0), [0x0D, 0x06, 0xC0]);
}

#[test]
fn buffer_frames_carry_the_offset() {
    assert_eq!(write_buffer_header(0x40), [0x0E, 0x40]);
    assert_eq!(read_buffer_header(0x40), [0x1E, 0x40, 0x00]);
}
