use nes::Fault;
use nes::Nes;

/// A controller whose latched report is fixed at construction.
struct FixedPad {
    up: bool,
    down: bool,
    a: bool,
}

impl nes::Controller for FixedPad {
    fn poll(&mut self) {
    }

    fn a(&self) -> bool {
        self.a
    }

    fn b(&self) -> bool {
        false
    }

    fn select(&self) -> bool {
        false
    }

    fn start(&self) -> bool {
        false
    }

    fn up(&self) -> bool {
        self.up
    }

    fn down(&self) -> bool {
        self.down
    }

    fn left(&self) -> bool {
        false
    }

    fn right(&self) -> bool {
        false
    }
}

fn plain_cart() -> Vec<u8> {
    let mut g = vec![0u8; 0x10 + 0x8000 + 0x2000];
    g[0] = 0x4e;
    g[1] = 0x45;
    g[2] = 0x53;
    g[3] = 0x1a;
    g[4] = 2;
    g[5] = 1;
    g[6] = 1;
    g
}

/// A cartridge with a solid 8-by-8 tile at pattern index 1 of bank 0.
fn solid_tile_cart() -> Vec<u8> {
    let mut g = plain_cart();
    for row in 0..8 {
        g[0x10 + 0x8000 + 16 + row] = 0xff;  // low plane of tile 1
        g[0x10 + 0x8000 + 24 + row] = 0xff;  // high plane of tile 1
    }
    g
}

fn load(g: &[u8]) -> Nes<FixedPad> {
    Nes::<FixedPad>::load_from_memory(g).unwrap()
}

#[test]
fn ram_is_mirrored_across_the_bottom_window() {
    let mut nes = load(&plain_cart());
    assert!(nes.mem.write(0x0005, 0x77).is_ok());
    assert_eq!(nes.mem.read(0x0805), Ok(0x77));
    assert_eq!(nes.mem.read(0x1005), Ok(0x77));
    assert_eq!(nes.mem.read(0x1805), Ok(0x77));
}

#[test]
fn write_only_register_read_is_fatal() {
    let mut nes = load(&plain_cart());
    assert_eq!(nes.mem.read(0x2000), Err(Fault::BusReadViolation(0x2000)));
    assert_eq!(nes.mem.read(0x2005), Err(Fault::BusReadViolation(0x2005)));
    assert_eq!(nes.mem.read(0x4000), Err(Fault::BusReadViolation(0x4000)));
}

#[test]
fn read_only_register_write_is_fatal() {
    let mut nes = load(&plain_cart());
    assert_eq!(nes.mem.write(0x2002, 1), Err(Fault::BusWriteViolation(0x2002)));
}

#[test]
fn unmapped_addresses_are_fatal() {
    let mut nes = load(&plain_cart());
    assert_eq!(nes.mem.read(0x5000), Err(Fault::BusReadViolation(0x5000)));
    assert_eq!(nes.mem.write(0x5000, 1), Err(Fault::BusWriteViolation(0x5000)));
    assert_eq!(nes.mem.write(0x8000, 1), Err(Fault::BusWriteViolation(0x8000)));
}

#[test]
fn video_address_gaps_are_fatal() {
    let mut nes = load(&plain_cart());
    // point the video address at the unmapped gap
    assert!(nes.mem.write(0x2006, 0x30).is_ok());
    assert!(nes.mem.write(0x2006, 0x00).is_ok());
    assert_eq!(nes.mem.read(0x2007), Err(Fault::VramReadOutOfRange(0x3000)));
    // pattern memory is read-only
    assert!(nes.mem.write(0x2006, 0x00).is_ok());
    assert!(nes.mem.write(0x2006, 0x00).is_ok());
    assert_eq!(nes.mem.write(0x2007, 1), Err(Fault::VramWriteOutOfRange(0x0000)));
}

#[test]
fn every_bus_access_costs_one_cycle() {
    let mut nes = load(&plain_cart());
    let c0 = nes.mem.cycles;
    let _ = nes.mem.read(0x0000);
    assert_eq!(nes.mem.cycles, c0 + 1);
    let _ = nes.mem.write(0x0000, 1);
    assert_eq!(nes.mem.cycles, c0 + 2);
    // a refused access was still an access
    let _ = nes.mem.read(0x2000);
    assert_eq!(nes.mem.cycles, c0 + 3);
}

#[test]
fn conflicting_directions_read_as_released() {
    let mut nes = load(&plain_cart());
    nes.connect(0, FixedPad { up: true, down: true, a: false });
    // strobe on, then off: latch the pad and reset the sequence
    assert!(nes.mem.write(0x4016, 1).is_ok());
    assert!(nes.mem.write(0x4016, 0).is_ok());
    for _ in 0..8 {
        // up and down suppress each other; everything else is released
        assert_eq!(nes.mem.read(0x4016), Ok(0x40));
    }
    // the sequence is exhausted: the fixed bit reads 1 from now on
    assert_eq!(nes.mem.read(0x4016), Ok(0x41));
    assert_eq!(nes.mem.read(0x4016), Ok(0x41));
}

#[test]
fn serial_sequence_reports_the_buttons_in_order() {
    let mut nes = load(&plain_cart());
    nes.connect(0, FixedPad { up: true, down: false, a: true });
    assert!(nes.mem.write(0x4016, 1).is_ok());
    // with the strobe set, every read reports the A button
    assert_eq!(nes.mem.read(0x4016), Ok(0x41));
    assert_eq!(nes.mem.read(0x4016), Ok(0x41));
    assert!(nes.mem.write(0x4016, 0).is_ok());
    let expect = [true, false, false, false, true, false, false, false];
    for e in expect {
        let want = if e { 0x41 } else { 0x40 };
        assert_eq!(nes.mem.read(0x4016), Ok(want));
    }
}

#[test]
fn disconnected_controller_reads_released_then_exhausted() {
    let mut nes = load(&plain_cart());
    assert!(nes.mem.write(0x4016, 1).is_ok());
    assert!(nes.mem.write(0x4016, 0).is_ok());
    for _ in 0..8 {
        assert_eq!(nes.mem.read(0x4017), Ok(0x40));
    }
    assert_eq!(nes.mem.read(0x4017), Ok(0x41));
}

#[test]
fn sound_register_writes_are_forwarded_verbatim() {
    let mut nes = load(&plain_cart());
    assert!(nes.mem.write(0x4000, 0x3f).is_ok());
    assert!(nes.mem.write(0x400a, 0x12).is_ok());
    assert!(nes.mem.write(0x4015, 0x0f).is_ok());
    assert!(nes.mem.write(0x4017, 0x40).is_ok());
    // delta-channel writes are dropped
    assert!(nes.mem.write(0x4011, 0x7f).is_ok());
    let writes = nes.take_sound_writes();
    assert_eq!(writes, vec![(0x4000, 0x3f), (0x400a, 0x12), (0x4015, 0x0f), (0x4017, 0x40)]);
    assert!(nes.take_sound_writes().is_empty());
}

#[test]
fn channel_status_byte_is_served_on_reads() {
    let mut nes = load(&plain_cart());
    assert_eq!(nes.mem.read(0x4015), Ok(0));
    nes.set_sound_status(0x0f);
    assert_eq!(nes.mem.read(0x4015), Ok(0x0f));
}

#[test]
fn sprite_table_transfer_copies_a_page_with_cycle_cost() {
    let mut nes = load(&plain_cart());
    for i in 0..256usize {
        nes.mem.ram[0x200 + i] = i as u8;
    }
    let c0 = nes.mem.cycles;
    assert!(nes.mem.write(0x4014, 0x02).is_ok());
    assert_eq!(nes.mem.cycles - c0, 257);
    for i in 0..256usize {
        assert_eq!(nes.mem.ppu.oam[i], i as u8);
    }
}

#[test]
fn sprite_table_transfer_honors_the_sprite_address() {
    let mut nes = load(&plain_cart());
    for i in 0..256usize {
        nes.mem.ram[i] = i as u8;
    }
    assert!(nes.mem.write(0x2003, 0x10).is_ok());  // sprite address
    assert!(nes.mem.write(0x4014, 0x00).is_ok());
    for i in 0..256usize {
        assert_eq!(nes.mem.ppu.oam[(0x10 + i) % 256], i as u8);
    }
}

#[test]
fn scroll_and_address_share_the_write_toggle() {
    let mut nes = load(&plain_cart());
    assert!(nes.mem.write(0x2005, 0x21).is_ok());
    assert!(nes.mem.write(0x2005, 0x42).is_ok());
    assert_eq!(nes.mem.ppu.ppuscroll_x, 0x21);
    assert_eq!(nes.mem.ppu.ppuscroll_y, 0x42);
    // one scroll write, then an address write: the toggle is shared
    assert!(nes.mem.write(0x2005, 0x10).is_ok());
    assert!(nes.mem.write(0x2006, 0x37).is_ok());
    assert_eq!(nes.mem.ppu.ppuaddr & 0x00ff, 0x37);
    assert_eq!(nes.mem.ppu.ppuscroll_x, 0x10);
}

#[test]
fn status_read_clears_the_write_toggle() {
    let mut nes = load(&plain_cart());
    assert!(nes.mem.write(0x2005, 0x11).is_ok());
    let _ = nes.mem.read(0x2002);
    // the next scroll write is horizontal again
    assert!(nes.mem.write(0x2005, 0x99).is_ok());
    assert_eq!(nes.mem.ppu.ppuscroll_x, 0x99);
}

#[test]
fn video_data_reads_are_buffered_one_behind() {
    let mut nes = load(&plain_cart());
    // write 0xab into the first nametable at offset 0x105
    assert!(nes.mem.write(0x2006, 0x21).is_ok());
    assert!(nes.mem.write(0x2006, 0x05).is_ok());
    assert!(nes.mem.write(0x2007, 0xab).is_ok());
    // point back and read twice: first the stale buffer, then the byte
    assert!(nes.mem.write(0x2006, 0x21).is_ok());
    assert!(nes.mem.write(0x2006, 0x05).is_ok());
    assert_eq!(nes.mem.read(0x2007), Ok(0x00));
    assert_eq!(nes.mem.read(0x2007), Ok(0xab));
}

#[test]
fn palette_reads_bypass_the_buffer() {
    let mut nes = load(&plain_cart());
    assert!(nes.mem.write(0x2006, 0x3f).is_ok());
    assert!(nes.mem.write(0x2006, 0x01).is_ok());
    assert!(nes.mem.write(0x2007, 0x21).is_ok());
    assert!(nes.mem.write(0x2006, 0x3f).is_ok());
    assert!(nes.mem.write(0x2006, 0x01).is_ok());
    assert_eq!(nes.mem.read(0x2007), Ok(0x21));
}

#[test]
fn video_address_increments_by_the_selected_step() {
    let mut nes = load(&plain_cart());
    assert!(nes.mem.write(0x2006, 0x20).is_ok());
    assert!(nes.mem.write(0x2006, 0x00).is_ok());
    assert!(nes.mem.write(0x2007, 1).is_ok());
    assert_eq!(nes.mem.ppu.ppuaddr, 0x2001);
    // select the 32-byte step
    assert!(nes.mem.write(0x2000, 0x04).is_ok());
    assert!(nes.mem.write(0x2007, 2).is_ok());
    assert_eq!(nes.mem.ppu.ppuaddr, 0x2021);
}

#[test]
fn backdrop_aliases_fold_onto_the_group_entry() {
    let mut nes = load(&plain_cart());
    assert!(nes.mem.write(0x2006, 0x3f).is_ok());
    assert!(nes.mem.write(0x2006, 0x10).is_ok());
    assert!(nes.mem.write(0x2007, 0x2d).is_ok());
    // the write landed at palette entry 0, not 0x10
    assert_eq!(nes.mem.ppu.pal[0], 0x2d);
    assert_eq!(nes.mem.ppu.pal[0x10], 0x00);
    // and entry 0 is the backdrop: gray (0x4f, 0x4f, 0x4f)
    assert_eq!(nes.mem.ppu.bg.r(), 0x4f);
}

#[test]
fn sprite_data_reads_do_not_advance_the_address() {
    let mut nes = load(&plain_cart());
    assert!(nes.mem.write(0x2003, 0x05).is_ok());
    assert!(nes.mem.write(0x2004, 0xaa).is_ok());
    // the data write advanced the address to 6; point it back
    assert!(nes.mem.write(0x2003, 0x05).is_ok());
    assert_eq!(nes.mem.read(0x2004), Ok(0xaa));
    assert_eq!(nes.mem.read(0x2004), Ok(0xaa));
}

#[test]
fn background_render_paints_the_resolved_palette_color() {
    let mut nes = load(&solid_tile_cart());
    // tile 1 at the first nametable cell
    assert!(nes.mem.write(0x2006, 0x20).is_ok());
    assert!(nes.mem.write(0x2006, 0x00).is_ok());
    assert!(nes.mem.write(0x2007, 0x01).is_ok());
    // background palette group 0, entry 3 (a solid tile reads pixel 3)
    assert!(nes.mem.write(0x2006, 0x3f).is_ok());
    assert!(nes.mem.write(0x2006, 0x03).is_ok());
    assert!(nes.mem.write(0x2007, 0x21).is_ok());
    // enable the background and render
    assert!(nes.mem.write(0x2001, 0x08).is_ok());
    nes.mem.ppu.clear();
    nes.mem.ppu.draw();
    let px = nes.mem.ppu.framebuffer.get(0, 0);
    assert_eq!((px.r(), px.g(), px.b()), (0x64, 0xb0, 0xff));
    // a cell holding tile 0 stays the backdrop (black here)
    let off = nes.mem.ppu.framebuffer.get(8, 0);
    assert_eq!((off.r(), off.g(), off.b()), (0x66, 0x66, 0x66));
}

#[test]
fn sprite_render_honors_priority_and_transparency() {
    let mut nes = load(&solid_tile_cart());
    // sprite 0: top-left at (20, 10), tile 1, front priority
    nes.mem.ppu.oam[0] = 9;  // stored row is one above the drawn row
    nes.mem.ppu.oam[1] = 1;
    nes.mem.ppu.oam[2] = 0;
    nes.mem.ppu.oam[3] = 20;
    // sprite palette group 0, entry 3
    assert!(nes.mem.write(0x2006, 0x3f).is_ok());
    assert!(nes.mem.write(0x2006, 0x13).is_ok());
    assert!(nes.mem.write(0x2007, 0x16).is_ok());
    // enable sprites and render
    assert!(nes.mem.write(0x2001, 0x10).is_ok());
    nes.mem.ppu.clear();
    nes.mem.ppu.draw();
    let px = nes.mem.ppu.framebuffer.get(20, 10);
    assert_eq!((px.r(), px.g(), px.b()), (0xb5, 0x31, 0x20));
    // outside the sprite the backdrop remains
    let off = nes.mem.ppu.framebuffer.get(40, 40);
    assert_eq!((off.r(), off.g(), off.b()), (0x66, 0x66, 0x66));
    // a transparent tile (index 0) sprite paints nothing
    let mut nes2 = load(&solid_tile_cart());
    nes2.mem.ppu.oam[0] = 9;
    nes2.mem.ppu.oam[1] = 0;
    nes2.mem.ppu.oam[3] = 20;
    assert!(nes2.mem.write(0x2001, 0x10).is_ok());
    nes2.mem.ppu.clear();
    nes2.mem.ppu.draw();
    let px = nes2.mem.ppu.framebuffer.get(20, 10);
    assert_eq!((px.r(), px.g(), px.b()), (0x66, 0x66, 0x66));
}

#[test]
fn status_reports_vertical_blank_from_the_cycle_count() {
    let mut nes = load(&plain_cart());
    // early in the frame: no vertical blank
    nes.mem.cycles = 100;
    assert_eq!(nes.mem.read(0x2002), Ok(0x00));
    // late in the frame: past the visible area
    nes.mem.cycles = 28000;
    assert_eq!(nes.mem.read(0x2002), Ok(0x80));
}

#[test]
fn sprite_zero_collision_is_estimated_geometrically() {
    let mut nes = load(&solid_tile_cart());
    // sprite 0 over a solid background cell: both tile 1
    nes.mem.ppu.oam[0] = 9;
    nes.mem.ppu.oam[1] = 1;
    nes.mem.ppu.oam[3] = 20;
    // background cell at rows 8..16, columns 16..24: nametable index 34
    assert!(nes.mem.write(0x2006, 0x20).is_ok());
    assert!(nes.mem.write(0x2006, 34).is_ok());
    assert!(nes.mem.write(0x2007, 0x01).is_ok());
    // past the visible area: the whole sprite has been scanned
    nes.mem.cycles = 28000;
    assert_eq!(nes.mem.read(0x2002), Ok(0xc0));
    // without the background tile there is no collision
    let mut nes2 = load(&solid_tile_cart());
    nes2.mem.ppu.oam[0] = 9;
    nes2.mem.ppu.oam[1] = 1;
    nes2.mem.ppu.oam[3] = 20;
    nes2.mem.cycles = 28000;
    assert_eq!(nes2.mem.read(0x2002), Ok(0x80));
}
