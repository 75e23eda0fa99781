use bmi270_interface::frames::i2c_read_frame;
use bmi270_interface::frames::i2c_write_frame;
use bmi270_interface::frames::spi_read_frame;
use bmi270_interface::frames::spi_write_frame;

#[test]
fn spi_write_frame_sets_the_write_mark() {
    assert_eq!(spi_write_frame(0x10, 0x5a), vec![0x90, 0x5a]);
    assert_eq!(spi_write_frame(0x00, 0x00), vec![0x80, 0x00]);
    assert_eq!(spi_write_frame(0xff, 0x01), vec![0xff, 0x01]);
}

#[test]
fn spi_read_frame_is_register_then_dummy() {
    assert_eq!(spi_read_frame(0x41), vec![0x41, 0x00]);
    assert_eq!(spi_read_frame(0x00), vec![0x00, 0x00]);
}

#[test]
fn i2c_frames_carry_bytes_untransformed() {
    assert_eq!(i2c_write_frame(0x7c, 0x04), vec![0x7c, 0x04]);
    assert_eq!(i2c_read_frame(0x0c), vec![0x0c]);
}
