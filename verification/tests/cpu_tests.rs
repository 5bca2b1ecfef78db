use c64::bus::Bus;
use c64::c64::{run_cpu_test, TestOutcome, C64};
use c64::cpu::Cpu;

fn machine() -> (Cpu, Bus) {
    (Cpu::new(), Bus::new())
}

#[test]
fn s1_adc_binary() {
    let mut cpu = Cpu::new();
    cpu.a = 0x50;
    cpu.cf = false;
    cpu.dmf = false;
    cpu.adc(0x50, 2);
    assert_eq!(cpu.a, 0xa0);
    assert!(cpu.nf);
    assert!(cpu.of);
    assert!(!cpu.zf);
    assert!(!cpu.cf);
}

#[test]
fn s2_adc_bcd() {
    let mut cpu = Cpu::new();
    cpu.a = 0x25;
    cpu.cf = false;
    cpu.dmf = true;
    cpu.adc(0x27, 2);
    assert_eq!(cpu.a, 0x52);
    assert!(!cpu.cf);
}

#[test]
fn s3_sbc_binary() {
    let mut cpu = Cpu::new();
    cpu.a = 0x50;
    cpu.cf = true;
    cpu.dmf = false;
    cpu.sbc(0xf0, 2);
    assert_eq!(cpu.a, 0x60);
    assert!(!cpu.cf); // borrow occurred
    // 0x50 - 0xf0 is +80 - (-16) = +96, no signed overflow
    assert!(!cpu.of);
}

#[test]
fn sbc_signed_overflow() {
    // +80 - (-112) = 192, outside the signed byte range
    let mut cpu = Cpu::new();
    cpu.a = 0x50;
    cpu.cf = true;
    cpu.sbc(0x90, 2);
    assert_eq!(cpu.a, 0xc0);
    assert!(cpu.of);
    assert!(!cpu.cf);
}

#[test]
fn sbc_bcd() {
    let mut cpu = Cpu::new();
    cpu.a = 0x52;
    cpu.cf = true;
    cpu.dmf = true;
    cpu.sbc(0x27, 2);
    assert_eq!(cpu.a, 0x25);
    assert!(cpu.cf);
}

#[test]
fn s4_lda_imm_then_store() {
    let (mut cpu, mut bus) = machine();
    let program: [u8; 6] = [0xa9, 0x42, 0x8d, 0x00, 0x02, 0x00];
    for (i, b) in program.iter().enumerate() {
        bus.mem.write_byte_no_io(i as u16, *b);
    }
    cpu.pc = 0;
    assert!(cpu.step(&mut bus));
    assert!(cpu.step(&mut bus));
    assert_eq!(bus.mem.read_byte_no_io(0x0200), 0x42);
    assert_eq!(cpu.a, 0x42);
    assert_eq!(cpu.pc, 5);
}

#[test]
fn p2_cycles_monotone_across_steps() {
    let mut c64 = C64::new();
    // leave RAM zeroed: opcode 0x00 (BRK) executes repeatedly
    let mut prev = c64.cpu.cycles();
    for _ in 0..100 {
        c64.step();
        assert!(c64.cpu.cycles() >= prev);
        prev = c64.cpu.cycles();
    }
}

#[test]
fn p3_stack_round_trip_concrete() {
    let (mut cpu, mut bus) = machine();
    for v in [0x00u8, 0x01, 0x7f, 0x80, 0xff] {
        let sp_before = cpu.sp;
        cpu.push(&mut bus, v);
        assert_eq!(cpu.sp, sp_before.wrapping_sub(1));
        let back = cpu.pop(&mut bus);
        assert_eq!(back, v);
        assert_eq!(cpu.sp, sp_before);
    }
}

#[test]
fn p4_status_round_trip_concrete() {
    let (mut cpu, mut bus) = machine();
    cpu.cf = true;
    cpu.zf = false;
    cpu.idf = true;
    cpu.dmf = false;
    cpu.of = true;
    cpu.nf = false;
    cpu.bcf = true;
    cpu.php(&mut bus);
    // scramble, then restore via PLP
    cpu.cf = false;
    cpu.zf = true;
    cpu.idf = false;
    cpu.dmf = true;
    cpu.of = false;
    cpu.nf = true;
    cpu.plp(&mut bus);
    assert!(cpu.cf && !cpu.zf && cpu.idf && !cpu.dmf && cpu.of && !cpu.nf);
    assert!(cpu.bcf);
}

#[test]
fn php_pushes_b_and_unused_set() {
    let (mut cpu, mut bus) = machine();
    cpu.cf = true;
    let sp = cpu.sp;
    cpu.php(&mut bus);
    let pushed = bus.mem.read_byte_no_io(0x0100 + sp as u16);
    assert_eq!(pushed, 0x30 | 0x01 | 0x04); // B, unused, C, and the initial I flag
}

#[test]
fn compare_relations() {
    let mut cpu = Cpu::new();
    cpu.a = 0x40;
    cpu.cmp(0x40, 2);
    assert!(cpu.cf && cpu.zf && !cpu.nf);
    cpu.cmp(0x41, 2);
    assert!(!cpu.cf && !cpu.zf && cpu.nf); // 0x40 - 0x41 = 0xff
    cpu.cmp(0x01, 2);
    assert!(cpu.cf && !cpu.zf && !cpu.nf);
    cpu.x = 0x10;
    cpu.cpx(0x20, 2);
    assert!(!cpu.cf);
    cpu.y = 0x30;
    cpu.cpy(0x30, 2);
    assert!(cpu.cf && cpu.zf);
}

#[test]
fn shifts_and_rotates() {
    let mut cpu = Cpu::new();
    cpu.a = 0x81;
    cpu.asl_a();
    assert_eq!(cpu.a, 0x02);
    assert!(cpu.cf);
    cpu.a = 0x01;
    cpu.lsr_a();
    assert_eq!(cpu.a, 0x00);
    assert!(cpu.cf && cpu.zf);
    cpu.a = 0x80;
    cpu.cf = true;
    cpu.rol_a();
    assert_eq!(cpu.a, 0x01);
    assert!(cpu.cf);
    cpu.a = 0x01;
    cpu.cf = true;
    cpu.ror_a();
    assert_eq!(cpu.a, 0x80);
    assert!(cpu.cf && cpu.nf);
}

#[test]
fn bit_sets_flags_from_memory() {
    let (mut cpu, mut bus) = machine();
    bus.mem.write_byte_no_io(0x0040, 0xc0);
    cpu.a = 0x3f;
    cpu.bit(&mut bus, 0x0040, 3);
    assert!(cpu.nf && cpu.of && cpu.zf);
}

#[test]
fn branch_taken_and_not_taken() {
    let (mut cpu, mut bus) = machine();
    bus.mem.write_byte_no_io(0x1000, 0x10); // offset +0x10
    cpu.pc = 0x1000;
    cpu.nf = false;
    cpu.bpl(&mut bus);
    assert_eq!(cpu.pc, 0x1011);
    bus.mem.write_byte_no_io(0x1000, 0xfe); // offset -2
    cpu.pc = 0x1000;
    cpu.zf = true;
    cpu.beq(&mut bus);
    assert_eq!(cpu.pc, 0x0fff);
    cpu.pc = 0x1000;
    cpu.zf = false;
    cpu.beq(&mut bus);
    assert_eq!(cpu.pc, 0x1001);
}

#[test]
fn jsr_rts_round_trip() {
    let (mut cpu, mut bus) = machine();
    bus.mem.write_byte_no_io(0x1000, 0x00);
    bus.mem.write_byte_no_io(0x1001, 0x20); // target 0x2000
    cpu.pc = 0x1000;
    cpu.jsr(&mut bus);
    assert_eq!(cpu.pc, 0x2000);
    cpu.rts(&mut bus);
    assert_eq!(cpu.pc, 0x1002);
}

#[test]
fn irq_respects_interrupt_disable() {
    let (mut cpu, mut bus) = machine();
    bus.mem.write_byte_no_io(0x0001, 0x00); // all RAM so vectors come from RAM
    bus.cpu_write(0x0001, 0x00);
    bus.mem.write_byte_no_io(0xfffe, 0x34);
    bus.mem.write_byte_no_io(0xffff, 0x12);
    cpu.pc = 0x8000;
    cpu.idf = true;
    let cycles = cpu.cycles();
    cpu.irq(&mut bus);
    assert_eq!(cpu.pc, 0x8000); // ignored while I is set
    assert_eq!(cpu.cycles(), cycles);
    cpu.idf = false;
    cpu.irq(&mut bus);
    assert_eq!(cpu.pc, 0x1234);
    assert!(cpu.idf);
    assert_eq!(cpu.cycles(), cycles + 7);
}

#[test]
fn nmi_is_unconditional_and_keeps_i() {
    let (mut cpu, mut bus) = machine();
    bus.cpu_write(0x0001, 0x00);
    bus.mem.write_byte_no_io(0xfffa, 0x78);
    bus.mem.write_byte_no_io(0xfffb, 0x56);
    cpu.pc = 0x8000;
    cpu.idf = true;
    cpu.nmi(&mut bus);
    assert_eq!(cpu.pc, 0x5678);
    assert!(cpu.idf);
}

#[test]
fn brk_pushes_flags_with_b_set() {
    let (mut cpu, mut bus) = machine();
    bus.cpu_write(0x0001, 0x00);
    bus.mem.write_byte_no_io(0xfffe, 0x00);
    bus.mem.write_byte_no_io(0xffff, 0x90);
    cpu.pc = 0x4000;
    let sp = cpu.sp;
    cpu.brk(&mut bus);
    assert_eq!(cpu.pc, 0x9000);
    assert!(cpu.idf && cpu.bcf);
    let flags = bus.mem.read_byte_no_io(0x0100 + sp.wrapping_sub(2) as u16);
    assert_eq!(flags & 0x30, 0x30);
}

#[test]
fn reset_loads_reset_vector() {
    let (mut cpu, mut bus) = machine();
    bus.mem.load_rom(&[0x00, 0x80], 0xfffc);
    cpu.a = 7;
    cpu.reset(&mut bus);
    assert_eq!(cpu.pc, 0x8000);
    assert_eq!(cpu.a, 0);
    assert_eq!(cpu.sp, 0xff);
    assert!(cpu.idf);
    assert_eq!(cpu.cycles(), 6);
}

#[test]
fn inc_dec_wrap() {
    let (mut cpu, mut bus) = machine();
    bus.mem.write_byte_no_io(0x0050, 0xff);
    cpu.inc(&mut bus, 0x0050, 5);
    assert_eq!(bus.mem.read_byte_no_io(0x0050), 0x00);
    assert!(cpu.zf);
    cpu.dec(&mut bus, 0x0050, 5);
    assert_eq!(bus.mem.read_byte_no_io(0x0050), 0xff);
    assert!(cpu.nf);
    cpu.x = 0xff;
    cpu.inx();
    assert_eq!(cpu.x, 0);
    assert!(cpu.zf);
}

#[test]
fn step_halts_on_unknown_opcode() {
    let (mut cpu, mut bus) = machine();
    bus.mem.write_byte_no_io(0x0300, 0x02); // not a documented opcode
    cpu.pc = 0x0300;
    assert!(!cpu.step(&mut bus));
}

#[test]
fn run_cpu_test_outcomes() {
    // a program that reaches the pass address
    let (mut cpu, mut bus) = machine();
    bus.mem.write_byte_no_io(0x0400, 0x4c); // JMP 0x0500
    bus.mem.write_byte_no_io(0x0401, 0x00);
    bus.mem.write_byte_no_io(0x0402, 0x05);
    cpu.pc = 0x0400;
    assert_eq!(run_cpu_test(&mut cpu, &mut bus, 0x0500, 10), TestOutcome::Passed);

    // a program that spins in place
    let (mut cpu, mut bus) = machine();
    bus.mem.write_byte_no_io(0x0400, 0x4c); // JMP 0x0400
    bus.mem.write_byte_no_io(0x0401, 0x00);
    bus.mem.write_byte_no_io(0x0402, 0x04);
    cpu.pc = 0x0400;
    assert_eq!(run_cpu_test(&mut cpu, &mut bus, 0x0500, 10), TestOutcome::Stuck(0x0400));

    // a program that hits an undocumented opcode
    let (mut cpu, mut bus) = machine();
    bus.mem.write_byte_no_io(0x0400, 0x02);
    cpu.pc = 0x0400;
    assert_eq!(run_cpu_test(&mut cpu, &mut bus, 0x0500, 10), TestOutcome::Halted);
}

#[test]
fn indexed_addressing_through_step() {
    // LDX #4; LDA 0x10,X reads zero page 0x14
    let (mut cpu, mut bus) = machine();
    let program: [u8; 4] = [0xa2, 0x04, 0xb5, 0x10];
    for (i, b) in program.iter().enumerate() {
        bus.mem.write_byte_no_io(i as u16, *b);
    }
    bus.mem.write_byte_no_io(0x0014, 0x99);
    cpu.pc = 0;
    cpu.step(&mut bus);
    cpu.step(&mut bus);
    assert_eq!(cpu.a, 0x99);
    assert!(cpu.nf);
}
