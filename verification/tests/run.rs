//! Tests of whole runs: dispatch ordering, bounds hardening, and programs
//! executed to completion.

use register_vm::Machine;
use register_vm::MachineError;
use register_vm::Sink;
use register_vm::VecSink;

/// A sink that rejects every write, for exercising `OutputFailed`.  The
/// two specification items of `Sink` survive compilation as ordinary trait
/// items but are never called at run time.
struct RejectingSink;

impl Sink for RejectingSink {
    fn written(&self) -> vstd::prelude::Seq<u8> {
        panic!()
    }

    fn reliable(&self) -> bool {
        false
    }

    fn write_bytes(&mut self, _data: &[u8]) -> Result<(), ()> {
        Err(())
    }
}

#[test]
fn output_number_program_writes_minus_42() {
    let mut m = Machine::new(&[8, 1, 7]);
    m.set_reg(1, (-42i32) as u32).unwrap();
    let mut sink = VecSink::new();
    assert_eq!(m.run_on(&mut sink), Ok(()));
    assert_eq!(sink.bytes(), b"-42");
    assert_eq!(m.get_ip(), 3);
}

#[test]
fn unknown_opcode_stops_run_without_mutation() {
    let mut m = Machine::new(&[9]);
    let mut sink = VecSink::new();
    assert_eq!(m.run_on(&mut sink), Err(MachineError::UnknownOpcode));
    assert_eq!(m.regs(), &[0u32; 16]);
    assert_eq!(m.memory()[0], 9);
    assert!(m.memory()[1..].iter().all(|&b| b == 0));
    assert!(sink.bytes().is_empty());
}

#[test]
fn four_byte_instruction_at_last_byte_fails_before_reading_past_memory() {
    let mut image = vec![0u8; 4096];
    image[4095] = 1;
    let mut m = Machine::new(&image);
    m.set_reg(0, 4095).unwrap();
    let mut sink = VecSink::new();
    assert_eq!(
        m.step_on(&mut sink),
        Err(MachineError::ProgramCounterOutOfBounds)
    );
    assert_eq!(m.get_ip(), 4095);
}

#[test]
fn ip_at_memory_end_fails() {
    let mut m = Machine::new(&[7]);
    m.set_reg(0, 4096).unwrap();
    let mut sink = VecSink::new();
    assert_eq!(
        m.step_on(&mut sink),
        Err(MachineError::ProgramCounterOutOfBounds)
    );
}

#[test]
fn ip_far_past_memory_end_fails() {
    let mut m = Machine::new(&[7]);
    m.set_reg(0, 0xFFFFFFFF).unwrap();
    let mut sink = VecSink::new();
    assert_eq!(
        m.run_on(&mut sink),
        Err(MachineError::ProgramCounterOutOfBounds)
    );
}

#[test]
fn empty_program_fails_on_opcode_zero() {
    let mut m = Machine::new(&[]);
    let mut sink = VecSink::new();
    assert_eq!(m.run_on(&mut sink), Err(MachineError::UnknownOpcode));
}

#[test]
fn halt_only_program_runs_to_completion() {
    let mut m = Machine::new(&[7]);
    let mut sink = VecSink::new();
    assert_eq!(m.run_on(&mut sink), Ok(()));
    assert_eq!(m.get_ip(), 1);
    assert!(sink.bytes().is_empty());
}

#[test]
fn arithmetic_program_prints_difference() {
    // r1 = 5; r2 = 3; r3 = r1 - r2; print r3; halt.
    let program = [4, 1, 5, 0, 4, 2, 3, 0, 5, 3, 1, 2, 8, 3, 7];
    let mut m = Machine::new(&program);
    let mut sink = VecSink::new();
    assert_eq!(m.run_on(&mut sink), Ok(()));
    assert_eq!(sink.bytes(), b"2");
    assert_eq!(m.get_ip(), 15);
}

#[test]
fn move_if_into_register_zero_jumps() {
    // r1 = 12; r2 = 1; if r2 != 0 { ip = r1 }; the halt at 12 ends the run
    // without touching the unknown opcode at 8 + 4.
    let program = [4, 1, 12, 0, 4, 2, 1, 0, 1, 0, 1, 2, 7, 9];
    let mut m = Machine::new(&program);
    let mut sink = VecSink::new();
    assert_eq!(m.run_on(&mut sink), Ok(()));
    assert_eq!(m.get_ip(), 13);
}

#[test]
fn greeting_program_prints_characters() {
    // Print 'H', 'i', then a newline, then halt.
    let program = [
        4, 1, b'H', 0, 6, 1, 4, 1, b'i', 0, 6, 1, 4, 1, b'\n', 0, 6, 1, 7,
    ];
    let mut m = Machine::new(&program);
    let mut sink = VecSink::new();
    assert_eq!(m.run_on(&mut sink), Ok(()));
    assert_eq!(sink.bytes(), b"Hi\n");
}

#[test]
fn store_then_load_roundtrips_through_memory() {
    // r1 = 100 (address); r2 = 77 (value); store r2 at [r1]; load [r1]
    // into r3; print r3; halt.
    let program = [4, 1, 100, 0, 4, 2, 77, 0, 2, 1, 2, 3, 3, 1, 8, 3, 7];
    let mut m = Machine::new(&program);
    let mut sink = VecSink::new();
    assert_eq!(m.run_on(&mut sink), Ok(()));
    assert_eq!(sink.bytes(), b"77");
    assert_eq!(m.regs()[3], 77);
}

#[test]
fn rejecting_sink_reports_output_failed_but_keeps_ip_advance() {
    let mut m = Machine::new(&[8, 1, 7]);
    m.set_reg(1, 5).unwrap();
    let mut sink = RejectingSink;
    assert_eq!(m.run_on(&mut sink), Err(MachineError::OutputFailed));
    assert_eq!(m.get_ip(), 2);
}

#[test]
fn halt_opcode_after_halt_is_a_fresh_step() {
    let mut m = Machine::new(&[7, 7]);
    let mut sink = VecSink::new();
    assert_eq!(m.step_on(&mut sink), Ok(true));
    assert_eq!(m.step_on(&mut sink), Ok(true));
    assert_eq!(m.get_ip(), 2);
}
