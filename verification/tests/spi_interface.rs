use bmi270_interface::interface::ReadData;
use bmi270_interface::interface::SpiInterface;
use bmi270_interface::interface::WriteData;
use bmi270_interface::sim::SimPin;
use bmi270_interface::sim::SimSpiBus;
use bmi270_interface::sim::SimSpiOp;
use bmi270_interface::sim::SIM_BUS_FAULT;
use bmi270_interface::sim::SIM_PIN_FAULT;
use bmi270_interface::types::Error;

fn fresh(responses: Vec<u8>) -> SpiInterface<SimSpiBus, SimPin> {
    SpiInterface { spi: SimSpiBus::new(responses), cs: SimPin::new() }
}

#[test]
fn write_reg_sets_write_mark_and_releases_cs() {
    let mut iface = fresh(vec![]);
    let r = iface.write_reg(0x10, 0x5a);
    assert!(r.is_ok());
    assert_eq!(iface.spi.ops, vec![SimSpiOp::Write { data: vec![0x90, 0x5a] }]);
    assert!(iface.cs.high);
    assert_eq!(iface.cs.driven, vec![false, true]);
}

#[test]
fn write_reg_tags_high_register_without_change() {
    // A register that already carries the top bit keeps it: or, not add.
    let mut iface = fresh(vec![]);
    let r = iface.write_reg(0x85, 0x01);
    assert!(r.is_ok());
    assert_eq!(iface.spi.ops, vec![SimSpiOp::Write { data: vec![0x85, 0x01] }]);
}

#[test]
fn write_tags_first_byte_in_place() {
    let mut iface = fresh(vec![]);
    let mut payload = vec![0x10, 0x01, 0x02];
    let r = iface.write(&mut payload);
    assert!(r.is_ok());
    assert_eq!(payload, vec![0x90, 0x01, 0x02]);
    assert_eq!(
        iface.spi.ops,
        vec![SimSpiOp::Write { data: vec![0x90, 0x01, 0x02] }]
    );
    assert!(iface.cs.high);
    assert_eq!(iface.cs.driven, vec![false, true]);
}

#[test]
fn read_reg_sends_register_and_dummy_and_returns_second_byte() {
    // The first byte clocked back is echoed during address transmission
    // and discarded; the second is the register value.
    let mut iface = fresh(vec![0xaa, 0x24]);
    let r = iface.read_reg(0x00);
    assert_eq!(r.unwrap(), 0x24);
    assert_eq!(
        iface.spi.ops,
        vec![SimSpiOp::Transfer { mosi: vec![0x00, 0x00], miso: vec![0xaa, 0x24] }]
    );
    assert!(iface.cs.high);
    assert_eq!(iface.cs.driven, vec![false, true]);
}

#[test]
fn read_reg_keeps_write_mark_clear() {
    let mut iface = fresh(vec![0x00, 0x07]);
    let r = iface.read_reg(0x41);
    assert_eq!(r.unwrap(), 0x07);
    match &iface.spi.ops[0] {
        SimSpiOp::Transfer { mosi, .. } => {
            assert_eq!(mosi, &vec![0x41, 0x00]);
            assert_eq!(mosi[0] & 0x80, 0);
        }
        other => panic!("unexpected transfer record: {:?}", other),
    }
}

#[test]
fn read_fills_whole_buffer_in_one_receive_transfer() {
    let mut iface = fresh(vec![0x11, 0x22, 0x33]);
    let mut payload = vec![0u8, 0, 0];
    let r = iface.read(&mut payload);
    assert!(r.is_ok());
    assert_eq!(payload, vec![0x11, 0x22, 0x33]);
    assert_eq!(iface.spi.ops, vec![SimSpiOp::Read { data: vec![0x11, 0x22, 0x33] }]);
    assert!(iface.cs.high);
}

#[test]
fn failed_transfer_still_releases_chip_select() {
    let mut iface = fresh(vec![]);
    iface.spi.fail = true;
    let r = iface.write_reg(0x10, 0x5a);
    assert_eq!(r.unwrap_err(), Error::Comm(SIM_BUS_FAULT));
    // Nothing reached the wire, but the line was still driven low then high.
    assert!(iface.spi.ops.is_empty());
    assert!(iface.cs.high);
    assert_eq!(iface.cs.driven, vec![false, true]);
}

#[test]
fn failed_transfer_on_read_reg_still_releases_chip_select() {
    let mut iface = fresh(vec![]);
    iface.spi.fail = true;
    let r = iface.read_reg(0x00);
    assert_eq!(r.unwrap_err(), Error::Comm(SIM_BUS_FAULT));
    assert!(iface.cs.high);
    assert_eq!(iface.cs.driven, vec![false, true]);
}

#[test]
fn failed_release_yields_chip_select_error_even_after_good_transfer() {
    let mut iface = fresh(vec![]);
    iface.cs.fail_high = true;
    let r = iface.write_reg(0x10, 0x5a);
    // The transfer itself succeeded and is on the wire, but the error
    // reported is the chip-select fault.
    assert_eq!(r.unwrap_err(), Error::Cs(SIM_PIN_FAULT));
    assert_eq!(iface.spi.ops, vec![SimSpiOp::Write { data: vec![0x90, 0x5a] }]);
    assert!(!iface.cs.high);
}

#[test]
fn failed_receive_transfer_still_releases_chip_select() {
    let mut iface = fresh(vec![]);
    iface.spi.fail = true;
    let mut payload = vec![0u8; 4];
    let r = iface.read(&mut payload);
    assert_eq!(r.unwrap_err(), Error::Comm(SIM_BUS_FAULT));
    assert!(iface.cs.high);
    assert_eq!(iface.cs.driven, vec![false, true]);
}

#[test]
fn failed_write_payload_is_still_tagged() {
    // The register byte is tagged before the line is ever driven, so the
    // caller's buffer is changed even when selecting the device fails.
    let mut iface = fresh(vec![]);
    iface.cs.fail_low = true;
    let mut payload = vec![0x10, 0x01];
    let r = iface.write(&mut payload);
    assert_eq!(r.unwrap_err(), Error::Cs(SIM_PIN_FAULT));
    assert_eq!(payload, vec![0x90, 0x01]);
    assert!(iface.spi.ops.is_empty());
}

#[test]
fn failed_select_transmits_nothing() {
    let mut iface = fresh(vec![]);
    iface.cs.fail_low = true;
    let r = iface.write_reg(0x10, 0x5a);
    assert_eq!(r.unwrap_err(), Error::Cs(SIM_PIN_FAULT));
    assert!(iface.spi.ops.is_empty());
    assert!(iface.cs.high);
    assert!(iface.cs.driven.is_empty());
}
