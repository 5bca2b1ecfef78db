use c64::bus::Bus;
use c64::mem::{BankCfg, Banks, Memory};
use c64::screen::{Screen, VISIBLE_SCREEN_WIDTH};
use c64::vic::{GraphicsMode, Vic};

#[test]
fn p5_bank_write_idempotent_concrete() {
    let mut once = Memory::new();
    once.load_rom(&[0xe0], 0xa000);
    let mut twice = Memory::new();
    twice.load_rom(&[0xe0], 0xa000);
    once.write_byte(0x0001, 0x05);
    twice.write_byte(0x0001, 0x05);
    twice.write_byte(0x0001, 0x05);
    for addr in [0x0001u16, 0x1000, 0xa000, 0xd000, 0xe000] {
        assert_eq!(once.read_byte(addr), twice.read_byte(addr));
    }
}

#[test]
fn s5_bank_switch() {
    let mut mem = Memory::new();
    mem.load_rom(&[0xe0], 0xa000);
    mem.write_byte(0xa000, 0x11); // lands in the RAM underneath
    mem.write_byte(0x0001, 0x37);
    assert_eq!(mem.read_byte(0xa000), 0xe0);
    mem.write_byte(0x0001, 0x35); // LORAM clear: BASIC window shows RAM
    assert_eq!(mem.read_byte(0xa000), 0x11);
}

#[test]
fn bank_slots_follow_layout_byte() {
    let mut mem = Memory::new();
    mem.setup_memory_banks(0x00);
    assert_eq!(mem.banks[Banks::BankKernal.to_usize()], BankCfg::Ram.as_u8());
    assert_eq!(mem.banks[Banks::BankBasic.to_usize()], BankCfg::Ram.as_u8());
    assert_eq!(mem.banks[Banks::BankCharen.to_usize()], BankCfg::Rom.as_u8());
    mem.setup_memory_banks(0x06); // HIRAM + CHAREN
    assert_eq!(mem.banks[Banks::BankKernal.to_usize()], BankCfg::Rom.as_u8());
    assert_eq!(mem.banks[Banks::BankBasic.to_usize()], BankCfg::Ram.as_u8());
    assert_eq!(mem.banks[Banks::BankCharen.to_usize()], BankCfg::Io.as_u8());
    mem.setup_memory_banks(0x04); // CHAREN alone
    assert_eq!(mem.banks[Banks::BankCharen.to_usize()], BankCfg::Ram.as_u8());
    assert_eq!(BankCfg::from_u8(3), None);
}

#[test]
fn words_are_little_endian() {
    let mut mem = Memory::new();
    mem.write_byte_no_io(0x2000, 0x34);
    mem.write_byte_no_io(0x2001, 0x12);
    assert_eq!(mem.read_word(0x2000), 0x1234);
    mem.write_word(0x3000, 0xbeef);
    assert_eq!(mem.read_byte_no_io(0x3000), 0xef);
    assert_eq!(mem.read_byte_no_io(0x3001), 0xbe);
}

#[test]
fn load_rom_clips_at_end() {
    let mut mem = Memory::new();
    mem.load_rom(&[1, 2, 3, 4], 0xfffe);
    // the default banks map the KERNAL window to ROM
    assert_eq!(mem.read_byte(0xfffe), 1);
    assert_eq!(mem.read_byte(0xffff), 2);
    // the bytes past the end of the buffer were dropped, not wrapped
    assert_eq!(mem.read_byte_no_io(0x0000), 0);
}

#[test]
fn vic_read_byte_ignores_banks() {
    let mut mem = Memory::new();
    mem.load_rom(&[0x55], 0xd000);
    mem.write_byte_no_io(0xd000, 0xaa);
    assert_eq!(mem.vic_read_byte(0xd000), 0xaa);
}

#[test]
fn vic_register_round_trips() {
    let mut vic = Vic::new();
    vic.write_register(0x20, 0x0e);
    assert_eq!(vic.read_register(0x20), 0x0e);
    vic.write_register(0x00, 100); // sprite 0 X
    vic.write_register(0x01, 50); // sprite 0 Y
    assert_eq!(vic.read_register(0x00), 100);
    assert_eq!(vic.read_register(0x01), 50);
    vic.write_register(0x10, 0x01);
    assert_eq!(vic.sprite_x(0), 100 + 256);
    vic.write_register(0x21, 0x06);
    assert_eq!(vic.read_register(0x21), 0x06);
    assert_eq!(vic.read_register(0x3f), 0xff);
}

#[test]
fn memory_pointers_derivation() {
    let mut vic = Vic::new();
    vic.write_register(0x18, 0xff);
    assert_eq!(vic.char_mem, (0xff & 0x0e) << 10);
    assert_eq!(vic.screen_mem, (0xf0u16) << 6);
    assert_eq!(vic.bitmap_mem, 0x08 << 10);
    assert_eq!(vic.mem_pointers, 0xff);
}

#[test]
fn graphics_mode_from_control_registers() {
    let mut vic = Vic::new();
    let cases: [(u8, u8, GraphicsMode); 6] = [
        (0x00, 0x00, GraphicsMode::CharMode),
        (0x00, 0x10, GraphicsMode::MCCharMode),
        (0x20, 0x00, GraphicsMode::BitmapMode),
        (0x20, 0x10, GraphicsMode::MCBitmapMode),
        (0x40, 0x00, GraphicsMode::ExitBgMode),
        (0x60, 0x10, GraphicsMode::IllegalMode),
    ];
    for (cr1, cr2, mode) in cases {
        vic.write_register(0x11, cr1);
        vic.write_register(0x16, cr2);
        assert_eq!(vic.graphic_mode, mode);
    }
}

#[test]
fn s6_raster_advances_linearly_wrapping() {
    let mut vic = Vic::new();
    let mem = Memory::new();
    let mut screen = Screen::new();
    let mut prev = vic.raster_counter();
    let mut wrapped = false;
    for cycles in 0..20000u32 {
        vic.step(cycles, &mem, &mut screen);
        let now = vic.raster_counter();
        if now != prev {
            if prev == 311 {
                assert_eq!(now, 0);
                wrapped = true;
            } else {
                assert_eq!(now, prev + 1);
            }
            prev = now;
        }
        assert!(now < 312);
    }
    assert!(wrapped);
    assert!(vic.frame_c >= 1);
}

#[test]
fn p6_raster_irq_once_per_frame() {
    let mut vic = Vic::new();
    let mem = Memory::new();
    let mut screen = Screen::new();
    vic.write_register(0x1a, 0x01); // enable the raster interrupt
    vic.write_register(0x12, 100); // compare value
    let mut events_frame = [0u32; 3];
    let mut frame: usize = 0;
    for cycles in 0..60000u32 {
        let before = vic.irq_status & 0x01;
        let res = vic.step(cycles, &mem, &mut screen);
        if before == 0 && vic.irq_status & 0x01 != 0 {
            events_frame[frame] += 1;
            assert!(res.raise_irq);
            vic.write_register(0x19, 0x01); // acknowledge
            assert_eq!(vic.irq_status & 0x01, 0);
        }
        if res.frame_done && frame < 2 {
            frame += 1;
        }
    }
    assert_eq!(events_frame[0], 1);
    assert_eq!(events_frame[1], 1);
}

#[test]
fn bad_lines_cost_fewer_cycles() {
    let mut vic = Vic::new();
    // raster 0x30 with vertical scroll 0 is a bad line
    vic.raster_counter_set(0x30);
    assert!(vic.is_bad_line());
    vic.raster_counter_set(0x31);
    assert!(!vic.is_bad_line());
    vic.raster_counter_set(0x2f);
    assert!(!vic.is_bad_line());
}

#[test]
fn screen_clips_and_draws() {
    let mut screen = Screen::new();
    screen.screen_update_pixel(10, 2, 0x15); // color is masked to 4 bits
    assert_eq!(screen.frame[2 * VISIBLE_SCREEN_WIDTH as usize + 10], 0x05);
    screen.screen_update_pixel(500, 2, 0x07); // off the right edge: clipped
    screen.screen_update_pixel(10, 300, 0x07); // below the frame: clipped
    assert!(screen.frame.iter().filter(|&&p| p != 0).count() == 1);
    screen.screen_draw_rect(400, 1, 10, 0x03); // clipped at column 403
    assert_eq!(screen.frame[VISIBLE_SCREEN_WIDTH as usize + 400], 0x03);
    assert_eq!(screen.frame[VISIBLE_SCREEN_WIDTH as usize + 402], 0x03);
    screen.screen_draw_border(0, 0x01);
    assert!(screen.frame[..VISIBLE_SCREEN_WIDTH as usize].iter().all(|&p| p == 1));
}

#[test]
fn draw_char_plots_set_bits() {
    let vic = Vic::new(); // horizontal scroll 0
    let mut screen = Screen::new();
    vic.draw_char(&mut screen, 100, 50, 0x81, 0x05);
    let row = 50 * VISIBLE_SCREEN_WIDTH as usize;
    // bit 0 lands at x+8, bit 7 at x+1
    assert_eq!(screen.frame[row + 108], 0x05);
    assert_eq!(screen.frame[row + 101], 0x05);
    assert_eq!(screen.frame[row + 104], 0x00);
    // nothing outside line 50
    assert!(screen.frame[..row].iter().all(|&p| p == 0));
}

#[test]
fn vic_step_renders_only_when_due() {
    let mut bus = Bus::new();
    let mut screen = Screen::new();
    // fill the screen code row with a character whose bitmap is all ones
    bus.mem.write_byte_no_io(0x0400, 0x00); // code 0
    let res = bus.vic.step(0, &bus.mem, &mut screen); // before the first line is due
    assert!(!res.raise_irq && !res.frame_done);
    assert_eq!(bus.vic.raster_counter(), 0);
}
