use c64::bus::Bus;
use c64::cia1::Cia1;
use c64::cia2::Cia2;
use c64::common::RunMode;
use c64::keyboard::{KeyEvent, Keyboard, WAIT_DURATION};

#[test]
fn p7_timer_a_one_shot() {
    let mut cia = Cia1::new();
    // latch 100, interrupt on, one-shot, enabled with immediate load
    cia.write_register(0x4, 100);
    cia.write_register(0x5, 0);
    cia.write_register(0xd, 0x81);
    cia.write_register(0xe, 0x01 | 0x08 | 0x10);
    assert!(cia.timer_a.enabled);
    let mut fired = false;
    for cycles in [10u32, 40, 80, 120] {
        if cia.step(cycles) {
            fired = true;
        }
    }
    assert!(fired);
    assert!(!cia.timer_a.enabled);
    assert!(cia.timer_a.irq_triggered);
}

#[test]
fn p8_timer_a_restart_fires_twice() {
    let mut cia = Cia1::new();
    cia.write_register(0x4, 50);
    cia.write_register(0x5, 0);
    cia.write_register(0xd, 0x81);
    cia.write_register(0xe, 0x01 | 0x10); // enabled, restart mode, load
    assert_eq!(cia.timer_a.run_mode, RunMode::Restart);
    let mut fires = 0;
    for cycles in 1..=100u32 {
        if cia.step(cycles) {
            fires += 1;
        }
    }
    assert_eq!(fires, 2);
    assert!(cia.timer_a.enabled);
}

#[test]
fn timer_b_counts_too() {
    let mut cia = Cia2::new();
    cia.write_register(0x6, 8);
    cia.write_register(0x7, 0);
    cia.write_register(0xd, 0x82);
    cia.write_register(0xf, 0x01 | 0x08 | 0x10);
    let mut raised = false;
    for cycles in 1..=10u32 {
        if cia.step(cycles) {
            raised = true;
        }
    }
    assert!(raised);
    assert!(cia.timer_b.irq_triggered);
    assert!(!cia.timer_b.enabled);
}

#[test]
fn timer_counter_reads_back() {
    let mut cia = Cia1::new();
    cia.write_register(0x4, 0x34);
    cia.write_register(0x5, 0x12);
    cia.write_register(0xe, 0x10); // load latch, not enabled
    assert_eq!(cia.read_register(0x4), 0x34);
    assert_eq!(cia.read_register(0x5), 0x12);
}

#[test]
fn icr_write_sets_and_clears_selectively() {
    let mut cia = Cia1::new();
    cia.write_register(0xd, 0x83); // set both enables
    assert!(cia.timer_a.irq_enabled && cia.timer_b.irq_enabled);
    cia.write_register(0xd, 0x01); // clear timer A only
    assert!(!cia.timer_a.irq_enabled && cia.timer_b.irq_enabled);
}

#[test]
fn icr_read_through_bus_clears_status() {
    let mut bus = Bus::new(); // default banks map the devices
    bus.cia1.timer_a.irq_triggered = true;
    let status = bus.cpu_read(0xdc0d);
    assert_eq!(status, 0x81);
    let again = bus.cpu_read(0xdc0d);
    assert_eq!(again, 0x00);
}

#[test]
fn cia2_vic_base_address() {
    let mut cia = Cia2::new();
    cia.write_register(0x0, 0xff); // low two bits set: bank 0
    assert_eq!(cia.vic_base_address(), 0x0000);
    cia.write_register(0x0, 0xfc); // low two bits clear: bank 3
    assert_eq!(cia.vic_base_address(), 0xc000);
    cia.write_register(0x0, 0xfe);
    assert_eq!(cia.vic_base_address(), 0x4000);
}

#[test]
fn keyboard_matrix_and_prb_read() {
    let mut cia = Cia1::new();
    cia.keyboard.handle_keydown(1, 2);
    assert_eq!(cia.keyboard.keyboard_matrix_row(1), 0xfb);
    // select matrix line 1 (its bit driven low)
    cia.write_register(0x0, !(1 << 1));
    assert_eq!(cia.read_register(0x1), 0xfb);
    // nothing selected
    cia.write_register(0x0, 0xff);
    assert_eq!(cia.read_register(0x1), 0xff);
    // everything selected: the AND of all rows
    cia.write_register(0x0, 0x00);
    assert_eq!(cia.read_register(0x1), 0xfb);
    cia.keyboard.handle_keyup(1, 2);
    assert_eq!(cia.keyboard.keyboard_matrix_row(1), 0xff);
}

#[test]
fn keyboard_queue_paces_events() {
    let mut kb = Keyboard::new();
    kb.queue_key_event(KeyEvent::Press, 3, 4);
    kb.queue_key_event(KeyEvent::Release, 3, 4);
    kb.process_key_event(0); // not past the mark yet (cycles must exceed it)
    assert_eq!(kb.keyboard_matrix_row(3), 0xff);
    kb.process_key_event(1);
    assert_eq!(kb.keyboard_matrix_row(3), 0xff & !(1 << 4));
    kb.process_key_event(2); // still paced out
    assert_eq!(kb.keyboard_matrix_row(3), 0xff & !(1 << 4));
    kb.process_key_event(1 + WAIT_DURATION + 1);
    assert_eq!(kb.keyboard_matrix_row(3), 0xff);
}

#[test]
fn type_character_queues_press_and_release() {
    let mut kb = Keyboard::new();
    kb.type_character('A');
    kb.process_key_event(1);
    assert_eq!(kb.keyboard_matrix_row(1), 0xff & !(1 << 2));
    kb.process_key_event(2 * WAIT_DURATION);
    assert_eq!(kb.keyboard_matrix_row(1), 0xff);
}
