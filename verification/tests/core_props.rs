use cpu6502::AddressingMode;
use cpu6502::EmuError;
use cpu6502::CPU;

// Loading a negative value sets the Negative flag and clears the Zero flag.
#[test]
fn test_lda_negative_flag() {
    let mut cpu = CPU::new();
    cpu.load_and_run(vec![0xa9, 0xff, 0x00]).unwrap();
    assert_eq!(cpu.register_a, 0xff);
    assert!(cpu.status & 0b0000_0010 == 0);
    assert!(cpu.status & 0b1000_0000 != 0);
}

// Transfers recompute the flags from the destination register's new value.
#[test]
fn test_tax_zero_sets_zero_flag() {
    let mut cpu = CPU::new();
    cpu.load_and_run(vec![0xa9, 0x00, 0xaa, 0x00]).unwrap();
    assert_eq!(cpu.register_x, 0x00);
    assert!(cpu.status & 0b0000_0010 == 0b10);
}

// Incrementing from zero yields one with both flags clear.
#[test]
fn test_inx_from_zero_clears_flags() {
    let mut cpu = CPU::new();
    cpu.load_and_run(vec![0xe8, 0x00]).unwrap();
    assert_eq!(cpu.register_x, 0x01);
    assert!(cpu.status & 0b0000_0010 == 0);
    assert!(cpu.status & 0b1000_0000 == 0);
}

// Incrementing index Y from zero yields one with both flags clear.
#[test]
fn test_iny_from_zero_clears_flags() {
    let mut cpu = CPU::new();
    cpu.load_and_run(vec![0xc8, 0x00]).unwrap();
    assert_eq!(cpu.register_y, 0x01);
    assert!(cpu.status & 0b0000_0010 == 0);
    assert!(cpu.status & 0b1000_0000 == 0);
}

// Indexed zero-page addressing wraps within the zero page: base 0xFF plus
// index 0x01 stores at 0x00, never at 0x100.
#[test]
fn test_sta_zeropage_x_wraps_in_zero_page() {
    let mut cpu = CPU::new();
    //                    LDA  #$01   TAX   LDA  #$aa   STA $ff,X   BRK
    cpu.load_and_run(vec![0xa9, 0x01, 0xaa, 0xa9, 0xaa, 0x95, 0xff, 0x00]).unwrap();
    assert_eq!(cpu.mem_read(0x00), 0xaa);
    assert_eq!(cpu.mem_read(0x100), 0x00);
}

// Writing a 16-bit word and reading it back at the same address is the
// identity.
#[test]
fn test_word_round_trip() {
    let mut cpu = CPU::new();
    cpu.mem_write_u16(0x1000, 0xbeef);
    assert_eq!(cpu.mem_read_u16(0x1000), 0xbeef);
    assert_eq!(cpu.mem_read(0x1000), 0xef);
    assert_eq!(cpu.mem_read(0x1001), 0xbe);
    cpu.mem_write_u16(0x0000, 0x0100);
    assert_eq!(cpu.mem_read_u16(0x0000), 0x0100);
}

// A byte absent from the opcode table stops the run with UnsupportedOpcode,
// naming the byte and its address, and does not corrupt the registers
// processed before that point.
#[test]
fn test_unsupported_opcode() {
    let mut cpu = CPU::new();
    let r = cpu.load_and_run(vec![0xa9, 0x05, 0x02, 0x00]);
    assert_eq!(r, Err(EmuError::UnsupportedOpcode { opcode: 0x02, addr: 0x8002 }));
    assert_eq!(cpu.register_a, 0x05);
}

// An absolute load whose operand names the one unbacked address stops the run
// with AddressOutOfRange and leaves the accumulator untouched.
#[test]
fn test_lda_address_out_of_range() {
    let mut cpu = CPU::new();
    let r = cpu.load_and_run(vec![0xad, 0xff, 0xff, 0x00]);
    assert_eq!(r, Err(EmuError::AddressOutOfRange { addr: 0xffff }));
    assert_eq!(cpu.register_a, 0x00);
}

// The resolver answers the no-addressing sentinel with
// InvalidAddressingModeUse.
#[test]
fn test_resolver_rejects_none_addressing() {
    let cpu = CPU::new();
    let r = cpu.get_operand_address(&AddressingMode::NoneAddressing);
    assert_eq!(r, Err(EmuError::InvalidAddressingModeUse));
}

// Zero-page-Y addressing wraps within the zero page like zero-page-X.
#[test]
fn test_zero_page_y_wraps() {
    let mut cpu = CPU::new();
    cpu.mem_write(0x0000, 0xfe);
    cpu.register_y = 0x05;
    let r = cpu.get_operand_address(&AddressingMode::ZeroPageY);
    assert_eq!(r, Ok(0x0003));
}

// An absolute load reads the little-endian operand address.
#[test]
fn test_lda_absolute() {
    let mut cpu = CPU::new();
    cpu.mem_write(0x1234, 0x77);
    cpu.load_and_run(vec![0xad, 0x34, 0x12, 0x00]).unwrap();
    assert_eq!(cpu.register_a, 0x77);
}

// Absolute-X addressing adds index X to the operand word.
#[test]
fn test_lda_absolute_x() {
    let mut cpu = CPU::new();
    cpu.mem_write(0x1235, 0x42);
    cpu.load_and_run(vec![0xa9, 0x01, 0xaa, 0xbd, 0x34, 0x12, 0x00]).unwrap();
    assert_eq!(cpu.register_a, 0x42);
}

// Absolute-Y addressing adds index Y to the operand word.
#[test]
fn test_lda_absolute_y() {
    let mut cpu = CPU::new();
    cpu.mem_write(0x1235, 0x43);
    cpu.load_and_run(vec![0xa9, 0x01, 0xa8, 0xb9, 0x34, 0x12, 0x00]).unwrap();
    assert_eq!(cpu.register_a, 0x43);
}

// Store-accumulator to an absolute address writes the byte and touches no
// flag.
#[test]
fn test_sta_absolute() {
    let mut cpu = CPU::new();
    cpu.load_and_run(vec![0xa9, 0x5a, 0x8d, 0x00, 0x20, 0x00]).unwrap();
    assert_eq!(cpu.mem_read(0x2000), 0x5a);
}

// Loading a program writes the reset vector, and the run leaves the program
// counter just past the halt opcode.
#[test]
fn test_reset_vector_and_final_pc() {
    let mut cpu = CPU::new();
    cpu.load_and_run(vec![0xa9, 0x05, 0x00]).unwrap();
    assert_eq!(cpu.mem_read_u16(0xfffc), 0x8000);
    assert_eq!(cpu.pc, 0x8003);
}
