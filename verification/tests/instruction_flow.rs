use nes::Nes;

struct QuietPad;

impl nes::Controller for QuietPad {
    fn poll(&mut self) {
    }

    fn a(&self) -> bool {
        false
    }

    fn b(&self) -> bool {
        false
    }

    fn select(&self) -> bool {
        false
    }

    fn start(&self) -> bool {
        false
    }

    fn up(&self) -> bool {
        false
    }

    fn down(&self) -> bool {
        false
    }

    fn left(&self) -> bool {
        false
    }

    fn right(&self) -> bool {
        false
    }
}

fn cart_with_code(code: &[u8]) -> Vec<u8> {
    let mut g = vec![0u8; 0x10 + 0x8000 + 0x2000];
    g[0] = 0x4e;
    g[1] = 0x45;
    g[2] = 0x53;
    g[3] = 0x1a;
    g[4] = 2;
    g[5] = 1;
    g[6] = 1;
    for (i, b) in code.iter().enumerate() {
        g[0x10 + i] = *b;
    }
    // reset vector: the code starts at the window's base
    g[0x10 + 0x7ffc] = 0x00;
    g[0x10 + 0x7ffd] = 0x80;
    g
}

fn load(code: &[u8]) -> Nes<QuietPad> {
    Nes::<QuietPad>::load_from_memory(&cart_with_code(code)).unwrap()
}

#[test]
fn indirect_jump_reads_the_pointer() {
    // the pointer at $0010 holds $9234
    let mut nes = load(&[0x6c, 0x10, 0x00]);
    nes.mem.ram[0x10] = 0x34;
    nes.mem.ram[0x11] = 0x92;
    let c0 = nes.mem.cycles;
    assert!(nes.cpu.execute(&mut nes.mem).is_ok());
    assert_eq!(nes.cpu.pc, 0x9234);
    assert_eq!(nes.mem.cycles - c0, 5);
}

#[test]
fn zero_page_indexed_wraps_within_the_page() {
    // lda $f0,x with x = 0x20 reads $0010, not $0110
    let mut nes = load(&[0xb5, 0xf0]);
    nes.cpu.x = 0x20;
    nes.mem.ram[0x10] = 0x42;
    nes.mem.ram[0x110] = 0x99;
    let c0 = nes.mem.cycles;
    assert!(nes.cpu.execute(&mut nes.mem).is_ok());
    assert_eq!(nes.cpu.a, 0x42);
    assert_eq!(nes.mem.cycles - c0, 4);
}

#[test]
fn indexed_indirect_goes_through_the_zero_page() {
    // lda ($20,x) with x = 4: pointer at $0024 -> $0300
    let mut nes = load(&[0xa1, 0x20]);
    nes.cpu.x = 4;
    nes.mem.ram[0x24] = 0x00;
    nes.mem.ram[0x25] = 0x03;
    nes.mem.ram[0x300] = 0x77;
    let c0 = nes.mem.cycles;
    assert!(nes.cpu.execute(&mut nes.mem).is_ok());
    assert_eq!(nes.cpu.a, 0x77);
    assert_eq!(nes.mem.cycles - c0, 6);
}

#[test]
fn indirect_indexed_charges_for_the_page_cross() {
    // lda ($20),y: pointer $02f0, y = 0x20 crosses into page 3
    let mut nes = load(&[0xb1, 0x20]);
    nes.cpu.y = 0x20;
    nes.mem.ram[0x20] = 0xf0;
    nes.mem.ram[0x21] = 0x02;
    nes.mem.ram[0x310] = 0x55;
    let c0 = nes.mem.cycles;
    assert!(nes.cpu.execute(&mut nes.mem).is_ok());
    assert_eq!(nes.cpu.a, 0x55);
    assert_eq!(nes.mem.cycles - c0, 6);

    // without the cross it is one cycle cheaper
    let mut nes = load(&[0xb1, 0x20]);
    nes.cpu.y = 0x01;
    nes.mem.ram[0x20] = 0xf0;
    nes.mem.ram[0x21] = 0x02;
    nes.mem.ram[0x2f1] = 0x66;
    let c0 = nes.mem.cycles;
    assert!(nes.cpu.execute(&mut nes.mem).is_ok());
    assert_eq!(nes.cpu.a, 0x66);
    assert_eq!(nes.mem.cycles - c0, 5);

    // a store through the same mode always pays the extra cycle
    let mut nes = load(&[0x91, 0x20]);
    nes.cpu.y = 0x01;
    nes.cpu.a = 0x13;
    nes.mem.ram[0x20] = 0xf0;
    nes.mem.ram[0x21] = 0x02;
    let c0 = nes.mem.cycles;
    assert!(nes.cpu.execute(&mut nes.mem).is_ok());
    assert_eq!(nes.mem.ram[0x2f1], 0x13);
    assert_eq!(nes.mem.cycles - c0, 6);
}

#[test]
fn interrupt_return_restores_status_and_counter() {
    // rti with a hand-built stack frame
    let mut nes = load(&[0x40]);
    nes.cpu.sp = 0xfc;
    nes.mem.ram[0x1fd] = 0xb1;  // negative, carry, and the two forced bits
    nes.mem.ram[0x1fe] = 0x34;
    nes.mem.ram[0x1ff] = 0x92;
    let c0 = nes.mem.cycles;
    assert!(nes.cpu.execute(&mut nes.mem).is_ok());
    assert_eq!(nes.cpu.pc, 0x9234);
    assert_eq!(nes.cpu.sp, 0xff);
    assert!(nes.cpu.n);
    assert!(nes.cpu.c);
    assert!(!nes.cpu.v);
    assert!(!nes.cpu.z);
    assert_eq!(nes.mem.cycles - c0, 6);
}

#[test]
fn memory_shift_writes_back_with_the_extra_cycle() {
    // asl $10
    let mut nes = load(&[0x06, 0x10]);
    nes.mem.ram[0x10] = 0x81;
    let c0 = nes.mem.cycles;
    assert!(nes.cpu.execute(&mut nes.mem).is_ok());
    assert_eq!(nes.mem.ram[0x10], 0x02);
    assert!(nes.cpu.c);
    assert_eq!(nes.mem.cycles - c0, 5);
}

#[test]
fn accumulator_shift_costs_two_cycles() {
    // ror a with carry set
    let mut nes = load(&[0x6a]);
    nes.cpu.a = 0x03;
    nes.cpu.c = true;
    let c0 = nes.mem.cycles;
    assert!(nes.cpu.execute(&mut nes.mem).is_ok());
    assert_eq!(nes.cpu.a, 0x81);
    assert!(nes.cpu.c);
    assert_eq!(nes.mem.cycles - c0, 2);
}

#[test]
fn transfers_move_registers_and_cost_two_cycles() {
    // ldx #$80 ; txs ; tsx is exercised below via fields
    let mut nes = load(&[0xa2, 0x80, 0x9a]);
    assert!(nes.cpu.execute(&mut nes.mem).is_ok());
    assert_eq!(nes.cpu.x, 0x80);
    assert!(nes.cpu.n);
    let c0 = nes.mem.cycles;
    assert!(nes.cpu.execute(&mut nes.mem).is_ok());
    assert_eq!(nes.cpu.sp, 0x80);
    assert_eq!(nes.mem.cycles - c0, 2);
}

#[test]
fn sprite_transfer_reads_the_cartridge_window_too() {
    let mut nes = load(&[]);
    // transfer page 0x80: the first 256 program bytes
    let mut g = cart_with_code(&[0xde, 0xad, 0xbe, 0xef]);
    g[0x10 + 0xff] = 0xab;
    let mut nes2 = Nes::<QuietPad>::load_from_memory(&g).unwrap();
    assert!(nes2.mem.write(0x4014, 0x80).is_ok());
    assert_eq!(nes2.mem.ppu.oam[0], 0xde);
    assert_eq!(nes2.mem.ppu.oam[3], 0xef);
    assert_eq!(nes2.mem.ppu.oam[0xff], 0xab);
    // a transfer from the unmapped middle faults without touching state
    assert!(nes.mem.write(0x4014, 0x50).is_err());
    assert_eq!(nes.mem.ppu.oam[0], 0);
}

#[test]
fn pull_sets_load_flags_and_push_does_not() {
    // lda #$00 ; pha ; lda #$01 ; pla
    let mut nes = load(&[0xa9, 0x00, 0x48, 0xa9, 0x01, 0x68]);
    assert!(nes.cpu.execute(&mut nes.mem).is_ok());
    assert!(nes.cpu.z);
    assert!(nes.cpu.execute(&mut nes.mem).is_ok());
    assert!(nes.cpu.z);  // pha leaves the flags alone
    assert!(nes.cpu.execute(&mut nes.mem).is_ok());
    assert!(!nes.cpu.z);
    let c0 = nes.mem.cycles;
    assert!(nes.cpu.execute(&mut nes.mem).is_ok());
    assert_eq!(nes.cpu.a, 0x00);
    assert!(nes.cpu.z);
    assert_eq!(nes.mem.cycles - c0, 4);
}
