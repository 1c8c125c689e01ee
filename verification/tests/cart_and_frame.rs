use nes::Fault;
use nes::Nes;

struct NullPad;

impl nes::Controller for NullPad {
    fn poll(&mut self) {
    }

    fn a(&self) -> bool {
        false
    }

    fn b(&self) -> bool {
        false
    }

    fn select(&self) -> bool {
        false
    }

    fn start(&self) -> bool {
        false
    }

    fn up(&self) -> bool {
        false
    }

    fn down(&self) -> bool {
        false
    }

    fn left(&self) -> bool {
        false
    }

    fn right(&self) -> bool {
        false
    }
}

fn blank_cart() -> Vec<u8> {
    let mut g = vec![0u8; 0x10 + 0x8000 + 0x2000];
    g[0] = 0x4e;
    g[1] = 0x45;
    g[2] = 0x53;
    g[3] = 0x1a;
    g[4] = 2;
    g[5] = 1;
    g[6] = 1;
    g
}

/// Places a byte at a processor address within the cartridge window.
fn poke_prg(g: &mut Vec<u8>, addr: u16, value: u8) {
    g[0x10 + (addr as usize - 0x8000)] = value;
}

/// A cartridge whose program is one unconditional jump to itself, with
/// the interrupt handler another such jump.
fn jmp_self_cart() -> Vec<u8> {
    let mut g = blank_cart();
    poke_prg(&mut g, 0x8000, 0x4c);
    poke_prg(&mut g, 0x8001, 0x00);
    poke_prg(&mut g, 0x8002, 0x80);
    poke_prg(&mut g, 0x8003, 0x4c);
    poke_prg(&mut g, 0x8004, 0x03);
    poke_prg(&mut g, 0x8005, 0x80);
    // reset vector
    poke_prg(&mut g, 0xfffc, 0x00);
    poke_prg(&mut g, 0xfffd, 0x80);
    // interrupt vector
    poke_prg(&mut g, 0xfffa, 0x03);
    poke_prg(&mut g, 0xfffb, 0x80);
    g
}

#[test]
fn valid_header_creates_a_session() {
    let g = jmp_self_cart();
    let nes = Nes::<NullPad>::load_from_memory(&g);
    assert!(nes.is_some());
    let nes = nes.unwrap();
    assert_eq!(nes.cpu.pc, 0x8000);
    assert_eq!(nes.mem.cycles, 0);
}

#[test]
fn each_flipped_header_byte_is_a_load_failure() {
    for i in [0usize, 1, 2, 3, 4, 5, 6, 7, 8, 9, 10] {
        let mut g = jmp_self_cart();
        g[i] = g[i].wrapping_add(1);
        assert!(Nes::<NullPad>::load_from_memory(&g).is_none());
    }
}

#[test]
fn short_image_is_a_load_failure_not_a_crash() {
    let g = jmp_self_cart();
    assert!(Nes::<NullPad>::load_from_memory(&g[..0x10]).is_none());
    assert!(Nes::<NullPad>::load_from_memory(&g[..0x8000]).is_none());
    assert!(Nes::<NullPad>::load_from_memory(&[]).is_none());
}

#[test]
fn frame_of_jumps_exhausts_the_budget_and_resets_the_counter() {
    let g = jmp_self_cart();
    let mut nes = Nes::<NullPad>::load_from_memory(&g).unwrap();
    for _ in 0..3 {
        assert!(nes.run().is_ok());
        assert_eq!(nes.mem.cycles, 0);
        // still spinning in place: every completed jump lands back
        assert_eq!(nes.cpu.pc, 0x8000);
    }
}

#[test]
fn frame_asserts_the_interrupt_exactly_once_iff_enabled() {
    let g = jmp_self_cart();

    // interrupt disabled: the stack pointer never moves
    let mut nes = Nes::<NullPad>::load_from_memory(&g).unwrap();
    let sp0 = nes.cpu.sp;
    assert!(nes.run().is_ok());
    assert_eq!(nes.cpu.sp, sp0);

    // interrupt enabled through the control register: exactly one
    // delivery, three bytes pushed, execution in the handler
    let mut nes = Nes::<NullPad>::load_from_memory(&g).unwrap();
    let sp0 = nes.cpu.sp;
    assert!(nes.mem.write(0x2000, 0x80).is_ok());
    assert!(nes.run().is_ok());
    assert_eq!(nes.cpu.sp, sp0.wrapping_sub(3));
    assert_eq!(nes.cpu.pc, 0x8003);
    assert_eq!(nes.mem.cycles, 0);
}

#[test]
fn frame_renders_the_backdrop_exactly_once() {
    let g = jmp_self_cart();
    let mut nes = Nes::<NullPad>::load_from_memory(&g).unwrap();
    // set the backdrop color: palette entry 0
    assert!(nes.mem.write(0x2006, 0x3f).is_ok());
    assert!(nes.mem.write(0x2006, 0x00).is_ok());
    assert!(nes.mem.write(0x2007, 0x21).is_ok());
    assert!(nes.run().is_ok());
    let bytes = nes.framebuffer();
    assert_eq!(bytes.len(), 256 * 240 * 4);
    // the hardware table maps entry 0x21 to (0x64, 0xb0, 0xff)
    assert_eq!(bytes[0], 0xff);
    assert_eq!(bytes[1], 0xb0);
    assert_eq!(bytes[2], 0x64);
    assert_eq!(bytes[3], 0x00);
}

#[test]
fn undocumented_opcode_is_fatal() {
    let mut g = jmp_self_cart();
    poke_prg(&mut g, 0x8000, 0x02);
    let mut nes = Nes::<NullPad>::load_from_memory(&g).unwrap();
    assert_eq!(nes.run(), Err(Fault::UnimplementedOpcode(0x02)));
}

#[test]
fn software_interrupt_opcode_is_fatal() {
    let mut g = jmp_self_cart();
    poke_prg(&mut g, 0x8000, 0x00);
    let mut nes = Nes::<NullPad>::load_from_memory(&g).unwrap();
    assert_eq!(nes.run(), Err(Fault::UnimplementedOpcode(0x00)));
}

#[test]
fn absolute_x_load_costs_the_extra_cycle_only_on_page_cross() {
    let mut g = jmp_self_cart();
    // lda $00f0,x
    poke_prg(&mut g, 0x8000, 0xbd);
    poke_prg(&mut g, 0x8001, 0xf0);
    poke_prg(&mut g, 0x8002, 0x00);

    // no page cross: 4 cycles
    let mut nes = Nes::<NullPad>::load_from_memory(&g).unwrap();
    nes.cpu.x = 0x00;
    let c0 = nes.mem.cycles;
    assert!(nes.cpu.execute(&mut nes.mem).is_ok());
    assert_eq!(nes.mem.cycles - c0, 4);

    // page cross: 5 cycles
    let mut nes = Nes::<NullPad>::load_from_memory(&g).unwrap();
    nes.cpu.x = 0x20;
    let c0 = nes.mem.cycles;
    assert!(nes.cpu.execute(&mut nes.mem).is_ok());
    assert_eq!(nes.mem.cycles - c0, 5);
}

#[test]
fn absolute_x_store_always_costs_the_extra_cycle() {
    let mut g = jmp_self_cart();
    // sta $00f0,x
    poke_prg(&mut g, 0x8000, 0x9d);
    poke_prg(&mut g, 0x8001, 0xf0);
    poke_prg(&mut g, 0x8002, 0x00);

    // no page cross, still 5 cycles
    let mut nes = Nes::<NullPad>::load_from_memory(&g).unwrap();
    nes.cpu.x = 0x00;
    nes.cpu.a = 0x5a;
    let c0 = nes.mem.cycles;
    assert!(nes.cpu.execute(&mut nes.mem).is_ok());
    assert_eq!(nes.mem.cycles - c0, 5);
    assert_eq!(nes.mem.ram[0xf0], 0x5a);

    // page cross, 5 cycles as well
    let mut nes = Nes::<NullPad>::load_from_memory(&g).unwrap();
    nes.cpu.x = 0x20;
    nes.cpu.a = 0xa5;
    let c0 = nes.mem.cycles;
    assert!(nes.cpu.execute(&mut nes.mem).is_ok());
    assert_eq!(nes.mem.cycles - c0, 5);
    assert_eq!(nes.mem.ram[0x110], 0xa5);
}

#[test]
fn taken_branch_costs_extra_and_more_across_pages() {
    let mut g = jmp_self_cart();
    // beq +0x10 at 0x8000 (z set): taken, same page: 3 cycles
    poke_prg(&mut g, 0x8000, 0xf0);
    poke_prg(&mut g, 0x8001, 0x10);
    let mut nes = Nes::<NullPad>::load_from_memory(&g).unwrap();
    nes.cpu.z = true;
    let c0 = nes.mem.cycles;
    assert!(nes.cpu.execute(&mut nes.mem).is_ok());
    assert_eq!(nes.mem.cycles - c0, 3);
    assert_eq!(nes.cpu.pc, 0x8012);

    // not taken: 2 cycles
    let mut nes = Nes::<NullPad>::load_from_memory(&g).unwrap();
    nes.cpu.z = false;
    let c0 = nes.mem.cycles;
    assert!(nes.cpu.execute(&mut nes.mem).is_ok());
    assert_eq!(nes.mem.cycles - c0, 2);
    assert_eq!(nes.cpu.pc, 0x8002);

    // taken across a page: 4 cycles
    let mut g = jmp_self_cart();
    poke_prg(&mut g, 0x80fd, 0xf0);
    poke_prg(&mut g, 0x80fe, 0x10);
    poke_prg(&mut g, 0xfffc, 0xfd);
    let mut nes = Nes::<NullPad>::load_from_memory(&g).unwrap();
    nes.cpu.z = true;
    let c0 = nes.mem.cycles;
    assert!(nes.cpu.execute(&mut nes.mem).is_ok());
    assert_eq!(nes.mem.cycles - c0, 4);
    assert_eq!(nes.cpu.pc, 0x810f);
}

#[test]
fn push_then_pull_status_preserves_the_six_flags() {
    let mut g = jmp_self_cart();
    poke_prg(&mut g, 0x8000, 0x08);  // php
    poke_prg(&mut g, 0x8001, 0x28);  // plp
    let mut nes = Nes::<NullPad>::load_from_memory(&g).unwrap();
    nes.cpu.n = true;
    nes.cpu.d = true;
    nes.cpu.c = true;
    let sp0 = nes.cpu.sp;
    assert!(nes.cpu.execute(&mut nes.mem).is_ok());
    // the stored byte: flags plus the forced pattern in bits 4 and 5
    let stored = nes.mem.ram[0x100 + sp0 as usize];
    assert_eq!(stored, 0x80 + 0x30 + 0x08 + 0x01);
    assert_eq!(stored & 0x30, 0x30);
    // scramble, then pull back
    nes.cpu.n = false;
    nes.cpu.d = false;
    nes.cpu.c = false;
    nes.cpu.v = true;
    nes.cpu.z = true;
    nes.cpu.i = true;
    assert!(nes.cpu.execute(&mut nes.mem).is_ok());
    assert!(nes.cpu.n);
    assert!(nes.cpu.d);
    assert!(nes.cpu.c);
    assert!(!nes.cpu.v);
    assert!(!nes.cpu.z);
    assert!(!nes.cpu.i);
    assert_eq!(nes.cpu.sp, sp0);
}

#[test]
fn subroutine_call_and_return_round_trip() {
    let mut g = jmp_self_cart();
    // jsr $9000 at 0x8000; rts at 0x9000
    poke_prg(&mut g, 0x8000, 0x20);
    poke_prg(&mut g, 0x8001, 0x00);
    poke_prg(&mut g, 0x8002, 0x90);
    poke_prg(&mut g, 0x9000, 0x60);
    let mut nes = Nes::<NullPad>::load_from_memory(&g).unwrap();
    let c0 = nes.mem.cycles;
    assert!(nes.cpu.execute(&mut nes.mem).is_ok());
    assert_eq!(nes.cpu.pc, 0x9000);
    assert_eq!(nes.mem.cycles - c0, 6);
    let c1 = nes.mem.cycles;
    assert!(nes.cpu.execute(&mut nes.mem).is_ok());
    assert_eq!(nes.cpu.pc, 0x8003);
    assert_eq!(nes.mem.cycles - c1, 6);
}

#[test]
fn audio_padding_repeats_the_final_sample_pair() {
    let g = jmp_self_cart();
    let nes = Nes::<NullPad>::load_from_memory(&g).unwrap();
    let mut buf: Vec<i16> = vec![0; 10];
    buf[0] = 11;
    buf[1] = -7;
    buf[2] = 5;
    buf[3] = -3;
    nes.play_audio(&mut buf, 4);
    assert_eq!(buf, vec![11, -7, 5, -3, 5, -3, 5, -3, 5, -3]);
}

#[test]
fn interrupt_enable_is_sampled_before_the_frame_begins() {
    // lda #$80 ; sta $2000 ; then spin: the program enables vblank-NMI
    // only after this frame has begun
    let mut g = blank_cart();
    poke_prg(&mut g, 0x8000, 0xa9);
    poke_prg(&mut g, 0x8001, 0x80);
    poke_prg(&mut g, 0x8002, 0x8d);
    poke_prg(&mut g, 0x8003, 0x00);
    poke_prg(&mut g, 0x8004, 0x20);
    poke_prg(&mut g, 0x8005, 0x4c);
    poke_prg(&mut g, 0x8006, 0x05);
    poke_prg(&mut g, 0x8007, 0x80);
    poke_prg(&mut g, 0xfffc, 0x00);
    poke_prg(&mut g, 0xfffd, 0x80);
    poke_prg(&mut g, 0xfffa, 0x05);
    poke_prg(&mut g, 0xfffb, 0x80);
    let mut nes = Nes::<NullPad>::load_from_memory(&g).unwrap();
    let sp0 = nes.cpu.sp;
    // first frame: the bit was clear when the frame began, so no
    // interrupt, though the program sets it mid-frame
    assert!(nes.run().is_ok());
    assert_eq!(nes.cpu.sp, sp0);
    assert_eq!(nes.mem.ppu.ppuctrl, 0x80);
    // second frame: enabled before it began, exactly one delivery
    assert!(nes.run().is_ok());
    assert_eq!(nes.cpu.sp, sp0.wrapping_sub(3));
    assert_eq!(nes.cpu.pc, 0x8005);
}
