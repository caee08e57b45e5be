//! Tests of the individual instructions, each driven through a single
//! dispatch step.

use register_vm::Machine;
use register_vm::MachineError;
use register_vm::VecSink;

fn step(m: &mut Machine) -> Result<bool, MachineError> {
    let mut sink = VecSink::new();
    m.step_on(&mut sink)
}

#[test]
fn loadimm_minus_one_sign_extends() {
    let mut m = Machine::new(&[4, 1, 0xFF, 0xFF]);
    assert_eq!(step(&mut m), Ok(false));
    assert_eq!(m.regs()[1], 0xFFFFFFFF);
    assert_eq!(m.get_ip(), 4);
}

#[test]
fn loadimm_minus_32768_sign_extends() {
    let mut m = Machine::new(&[4, 1, 0x00, 0x80]);
    assert_eq!(step(&mut m), Ok(false));
    assert_eq!(m.regs()[1], 0xFFFF8000);
}

#[test]
fn loadimm_one_stays_one() {
    let mut m = Machine::new(&[4, 1, 0x01, 0x00]);
    assert_eq!(step(&mut m), Ok(false));
    assert_eq!(m.regs()[1], 1);
}

#[test]
fn loadimm_rejects_register_16() {
    let mut m = Machine::new(&[4, 16, 0x01, 0x00]);
    assert_eq!(step(&mut m), Err(MachineError::RegisterOutOfRange));
    assert_eq!(m.get_ip(), 4);
}

#[test]
fn sub_wraps_below_zero() {
    let mut m = Machine::new(&[5, 2, 3, 4]);
    m.set_reg(3, 0).unwrap();
    m.set_reg(4, 1).unwrap();
    assert_eq!(step(&mut m), Ok(false));
    assert_eq!(m.regs()[2], 0xFFFFFFFF);
}

#[test]
fn sub_computes_difference() {
    let mut m = Machine::new(&[5, 2, 3, 4]);
    m.set_reg(3, 10).unwrap();
    m.set_reg(4, 3).unwrap();
    assert_eq!(step(&mut m), Ok(false));
    assert_eq!(m.regs()[2], 7);
    assert_eq!(m.get_ip(), 4);
}

#[test]
fn move_if_zero_condition_moves_nothing() {
    let mut m = Machine::new(&[1, 2, 3, 4]);
    m.set_reg(2, 111).unwrap();
    m.set_reg(3, 222).unwrap();
    m.set_reg(4, 0).unwrap();
    assert_eq!(step(&mut m), Ok(false));
    assert_eq!(m.regs()[2], 111);
    assert_eq!(m.regs()[3], 222);
    assert_eq!(m.get_ip(), 4);
}

#[test]
fn move_if_nonzero_condition_copies_source() {
    let mut m = Machine::new(&[1, 2, 3, 4]);
    m.set_reg(2, 111).unwrap();
    m.set_reg(3, 222).unwrap();
    m.set_reg(4, 1).unwrap();
    assert_eq!(step(&mut m), Ok(false));
    assert_eq!(m.regs()[2], 222);
    assert_eq!(m.regs()[3], 222);
}

#[test]
fn move_if_rejects_register_16() {
    let mut m = Machine::new(&[1, 16, 3, 4]);
    assert_eq!(step(&mut m), Err(MachineError::RegisterOutOfRange));
    assert_eq!(m.get_ip(), 4);
}

#[test]
fn store_writes_word_at_register_address() {
    let mut m = Machine::new(&[2, 1, 2]);
    m.set_reg(1, 200).unwrap();
    m.set_reg(2, 0x01020304).unwrap();
    assert_eq!(step(&mut m), Ok(false));
    assert_eq!(&m.memory()[200..204], &[0x04, 0x03, 0x02, 0x01]);
    assert_eq!(m.get_ip(), 3);
}

#[test]
fn store_rejects_address_without_room() {
    let mut m = Machine::new(&[2, 1, 2]);
    m.set_reg(1, 4093).unwrap();
    assert_eq!(step(&mut m), Err(MachineError::AddressOutOfBounds));
    assert_eq!(m.get_ip(), 3);
}

#[test]
fn load_reads_word_at_register_address() {
    let mut m = Machine::new(&[3, 5, 1, 0, 0xAA, 0xBB, 0xCC, 0xDD]);
    m.set_reg(1, 4).unwrap();
    assert_eq!(step(&mut m), Ok(false));
    assert_eq!(m.regs()[5], 0xDDCCBBAA);
    assert_eq!(m.get_ip(), 3);
}

#[test]
fn load_rejects_address_without_room() {
    let mut m = Machine::new(&[3, 5, 1]);
    m.set_reg(1, 0xFFFFFFFF).unwrap();
    assert_eq!(step(&mut m), Err(MachineError::AddressOutOfBounds));
}

#[test]
fn out_writes_ascii_byte() {
    let mut m = Machine::new(&[6, 1]);
    m.set_reg(1, 'A' as u32).unwrap();
    let mut sink = VecSink::new();
    assert_eq!(m.step_on(&mut sink), Ok(false));
    assert_eq!(sink.bytes(), b"A");
    assert_eq!(m.get_ip(), 2);
}

#[test]
fn out_writes_multibyte_utf8() {
    let mut m = Machine::new(&[6, 1]);
    m.set_reg(1, 0x20AC).unwrap();
    let mut sink = VecSink::new();
    assert_eq!(m.step_on(&mut sink), Ok(false));
    assert_eq!(sink.bytes(), "\u{20AC}".as_bytes());
}

#[test]
fn out_writes_four_byte_utf8() {
    let mut m = Machine::new(&[6, 1]);
    m.set_reg(1, 0x1F600).unwrap();
    let mut sink = VecSink::new();
    assert_eq!(m.step_on(&mut sink), Ok(false));
    assert_eq!(sink.bytes(), "\u{1F600}".as_bytes());
}

#[test]
fn out_rejects_surrogate_code_point() {
    let mut m = Machine::new(&[6, 1]);
    m.set_reg(1, 0xD800).unwrap();
    let mut sink = VecSink::new();
    assert_eq!(m.step_on(&mut sink), Err(MachineError::InvalidCodePoint));
    assert!(sink.bytes().is_empty());
    assert_eq!(m.get_ip(), 2);
}

#[test]
fn out_rejects_value_above_unicode_range() {
    let mut m = Machine::new(&[6, 1]);
    m.set_reg(1, 0x110000).unwrap();
    let mut sink = VecSink::new();
    assert_eq!(m.step_on(&mut sink), Err(MachineError::InvalidCodePoint));
}

#[test]
fn out_number_writes_negative_decimal() {
    let mut m = Machine::new(&[8, 1]);
    m.set_reg(1, (-42i32) as u32).unwrap();
    let mut sink = VecSink::new();
    assert_eq!(m.step_on(&mut sink), Ok(false));
    assert_eq!(sink.bytes(), b"-42");
    assert_eq!(m.get_ip(), 2);
}

#[test]
fn out_number_writes_zero() {
    let mut m = Machine::new(&[8, 1]);
    let mut sink = VecSink::new();
    assert_eq!(m.step_on(&mut sink), Ok(false));
    assert_eq!(sink.bytes(), b"0");
}

#[test]
fn out_number_writes_extreme_values() {
    let mut m = Machine::new(&[8, 1, 8, 2]);
    m.set_reg(1, i32::MIN as u32).unwrap();
    m.set_reg(2, i32::MAX as u32).unwrap();
    let mut sink = VecSink::new();
    assert_eq!(m.step_on(&mut sink), Ok(false));
    assert_eq!(m.step_on(&mut sink), Ok(false));
    assert_eq!(sink.bytes(), b"-21474836482147483647");
}

#[test]
fn halt_advances_ip_and_reports_termination() {
    let mut m = Machine::new(&[7]);
    assert_eq!(step(&mut m), Ok(true));
    assert_eq!(m.get_ip(), 1);
}
