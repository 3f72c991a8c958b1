use cpu6502::CPU;

#[test]
fn test_0xa9_lda_immediate_load_data() {
    let mut cpu = CPU::new();
    cpu.load_and_run(vec![0xa9, 0x05, 0x00]).unwrap();
    assert_eq!(cpu.register_a, 0x05);
    assert!(cpu.status & 0b0000_0010 == 0b00);
    assert!(cpu.status & 0b1000_0000 == 0);
}

#[test]
fn test_0xa9_lda_zero_flag() {
    let mut cpu = CPU::new();
    cpu.load_and_run(vec![0xa9, 0x00, 0x00]).unwrap();
    assert!(cpu.status & 0b0000_0010 == 0b10);
}

#[test]
fn test_0xaa_tax_move_a_to_x() {
    let mut cpu = CPU::new();
    cpu.load_and_run(vec![0xa9, 0x0a, 0xaa, 0x00]).unwrap();

    assert_eq!(cpu.register_x, 0x0a)
}

#[test]
fn test_0xa8_tay_move_a_to_y() {
    let mut cpu = CPU::new();
    cpu.load_and_run(vec![0xa9, 0x0a, 0xa8, 0x00]).unwrap();

    assert_eq!(cpu.register_y, 0x0a)
}

#[test]
fn test_5_ops_working_together() {
    let mut cpu = CPU::new();
    cpu.load_and_run(vec![0xa9, 0xc0, 0xaa, 0xe8, 0x00]).unwrap();
    assert_eq!(cpu.register_x, 0xc1)
}

#[test]
fn test_inx_overflow() {
    let mut cpu = CPU::new();
    cpu.load_and_run(vec![0xa9, 0xff, 0xaa, 0xe8, 0xe8, 0x00]).unwrap();
    assert_eq!(cpu.register_x, 1)
}

#[test]
fn test_iny_overflow() {
    let mut cpu = CPU::new();
    cpu.load_and_run(vec![0xa9, 0xff, 0xa8, 0xc8, 0xc8, 0x00]).unwrap();
    assert_eq!(cpu.register_y, 1)
}

#[test]
fn test_lda_from_memory() {
    let mut cpu = CPU::new();
    cpu.mem_write(0x10, 0x55);

    cpu.load_and_run(vec![0xa5, 0x10, 0x00]).unwrap();

    assert_eq!(cpu.register_a, 0x55);
}

#[test]
fn test_lda_indirect_x() {
    // Runs this program:
    // LDX #$01
    // LDA #$05
    // STA $01
    // LDA #$07
    // STA $02
    // LDY #$0a
    // STY $0705
    // LDA ($00,X)

    let mut cpu = CPU::new();

    // LDA #$05
    // STA $01
    cpu.mem_write(0x01, 0x05);

    // LDA #$07
    // STA $02
    cpu.mem_write(0x02, 0x07);

    // LDY #$0a
    // STY $0705
    cpu.mem_write(0x0705, 0x0a);

    //                    LDA  #$0x01 TAX   LDA ($00, X) BRK
    cpu.load_and_run(vec![0xa9, 0x01, 0xaa, 0xa1, 0x00, 0x00]).unwrap();

    assert_eq!(cpu.register_a, 0x0a);
}

#[test]
fn test_lda_indirect_y() {
    // Runs this program:
    // LDY #$01
    // LDA #$03
    // STA $01
    // LDA #$07
    // STA $02
    // LDX #$0a
    // STX $0704
    // LDA ($01),Y

    let mut cpu = CPU::new();

    // LDA #$03
    // STA $01
    cpu.mem_write(0x01, 0x03);

    // LDA #$07
    // STA $02
    cpu.mem_write(0x02, 0x07);

    // LDX #$0a
    // STX $0704
    cpu.mem_write(0x0704, 0x0a);

    //                    LDA  #$0x01 TAY   LDA ($01),Y BRK
    cpu.load_and_run(vec![0xa9, 0x01, 0xa8, 0xb1, 0x01, 0x00]).unwrap();

    assert_eq!(cpu.register_a, 0x0a);
}

#[test]
fn test_sta_zeropage_x() {
    // LDX #$01   ;X is $01
    // LDA #$aa   ;A is $aa
    // STA $a0,X ;Store the value of A at memory location $a1
    // INX        ;Increment X
    // STA $a0,X ;Store the value of A at memory location $a2
    let mut cpu = CPU::new();

    cpu.load_and_run(vec![
        0xa9, 0x01, 0xaa, 0xa9, 0xaa, 0x95, 0xa0, 0xe8, 0x95, 0xa0, 0x00,
    ])
    .unwrap();

    assert_eq!(cpu.mem_read_u16(0xa1), 0xaaaa)
}
