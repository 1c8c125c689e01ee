use nes::Nes;

struct StillPad;

impl nes::Controller for StillPad {
    fn poll(&mut self) {
    }

    fn a(&self) -> bool {
        false
    }

    fn b(&self) -> bool {
        false
    }

    fn select(&self) -> bool {
        false
    }

    fn start(&self) -> bool {
        false
    }

    fn up(&self) -> bool {
        false
    }

    fn down(&self) -> bool {
        false
    }

    fn left(&self) -> bool {
        false
    }

    fn right(&self) -> bool {
        false
    }
}

/// A cartridge whose pattern tile 1 (bank 0) has only its top-left
/// pixel set, at value 1.
fn corner_tile_cart() -> Vec<u8> {
    let mut g = vec![0u8; 0x10 + 0x8000 + 0x2000];
    g[0] = 0x4e;
    g[1] = 0x45;
    g[2] = 0x53;
    g[3] = 0x1a;
    g[4] = 2;
    g[5] = 1;
    g[6] = 1;
    g[0x10 + 0x8000 + 16] = 0x80;  // low plane, row 0, leftmost pixel
    g
}

fn load() -> Nes<StillPad> {
    Nes::<StillPad>::load_from_memory(&corner_tile_cart()).unwrap()
}

fn write(nes: &mut Nes<StillPad>, addr: u16, value: u8) {
    assert!(nes.mem.write(addr, value).is_ok());
}

fn rgb(nes: &Nes<StillPad>, x: usize, y: usize) -> (u8, u8, u8) {
    let p = nes.mem.ppu.framebuffer.get(x, y);
    (p.r(), p.g(), p.b())
}

#[test]
fn sprite_flips_mirror_the_tile() {
    // sprite palette group 0, entry 1 -> white-ish 0x20
    let mut nes = load();
    write(&mut nes, 0x2006, 0x3f);
    write(&mut nes, 0x2006, 0x11);
    write(&mut nes, 0x2007, 0x20);
    write(&mut nes, 0x2001, 0x10);
    nes.mem.ppu.oam[0] = 99;  // drawn rows 100..108
    nes.mem.ppu.oam[1] = 1;
    nes.mem.ppu.oam[2] = 0x00;  // no flips
    nes.mem.ppu.oam[3] = 50;
    nes.mem.ppu.clear();
    nes.mem.ppu.draw();
    assert_eq!(rgb(&nes, 50, 100), (0xff, 0xfe, 0xff));
    assert_eq!(rgb(&nes, 57, 100), (0x66, 0x66, 0x66));

    // horizontal flip moves the corner to the right edge
    nes.mem.ppu.oam[2] = 0x40;
    nes.mem.ppu.clear();
    nes.mem.ppu.draw();
    assert_eq!(rgb(&nes, 57, 100), (0xff, 0xfe, 0xff));
    assert_eq!(rgb(&nes, 50, 100), (0x66, 0x66, 0x66));

    // vertical flip moves it to the bottom edge
    nes.mem.ppu.oam[2] = 0x80;
    nes.mem.ppu.clear();
    nes.mem.ppu.draw();
    assert_eq!(rgb(&nes, 50, 107), (0xff, 0xfe, 0xff));
    assert_eq!(rgb(&nes, 50, 100), (0x66, 0x66, 0x66));
}

#[test]
fn attribute_byte_selects_the_palette_group() {
    let mut nes = load();
    // tile 1 in two cells of different attribute quadrants: cell 0
    // (top-left quadrant of block 0) and cell 2 (top-right quadrant)
    write(&mut nes, 0x2006, 0x20);
    write(&mut nes, 0x2006, 0x00);
    write(&mut nes, 0x2007, 0x01);
    write(&mut nes, 0x2006, 0x20);
    write(&mut nes, 0x2006, 0x02);
    write(&mut nes, 0x2007, 0x01);
    // attribute byte 0: quadrant 0 -> group 1, quadrant 1 -> group 2
    let attr: u8 = 0b0000_1001;
    write(&mut nes, 0x2006, 0x23);
    write(&mut nes, 0x2006, 0xc0);
    write(&mut nes, 0x2007, attr);
    // group 1 entry 1 and group 2 entry 1 get distinct colors
    write(&mut nes, 0x2006, 0x3f);
    write(&mut nes, 0x2006, 0x05);
    write(&mut nes, 0x2007, 0x16);
    write(&mut nes, 0x2006, 0x3f);
    write(&mut nes, 0x2006, 0x09);
    write(&mut nes, 0x2007, 0x1a);
    write(&mut nes, 0x2001, 0x08);
    nes.mem.ppu.clear();
    nes.mem.ppu.draw();
    assert_eq!(rgb(&nes, 0, 0), (0xb5, 0x31, 0x20));
    assert_eq!(rgb(&nes, 16, 0), (0x0c, 0x93, 0x00));
}

#[test]
fn scroll_shifts_the_background() {
    let mut nes = load();
    // tile 1 at cell 1 (columns 8..16 of row 0)
    write(&mut nes, 0x2006, 0x20);
    write(&mut nes, 0x2006, 0x01);
    write(&mut nes, 0x2007, 0x01);
    // group 0 entry 1
    write(&mut nes, 0x2006, 0x3f);
    write(&mut nes, 0x2006, 0x01);
    write(&mut nes, 0x2007, 0x20);
    write(&mut nes, 0x2001, 0x08);
    // horizontal scroll of 3 moves the pixel from column 8 to column 5
    write(&mut nes, 0x2005, 3);
    write(&mut nes, 0x2005, 0);
    nes.mem.ppu.clear();
    nes.mem.ppu.draw();
    assert_eq!(rgb(&nes, 5, 0), (0xff, 0xfe, 0xff));
    assert_eq!(rgb(&nes, 8, 0), (0x66, 0x66, 0x66));
}

#[test]
fn nametable_select_bit_shifts_the_second_screen() {
    let mut nes = load();
    // tile 1 at cell 0 of the second nametable (video address 0x2400)
    write(&mut nes, 0x2006, 0x24);
    write(&mut nes, 0x2006, 0x00);
    write(&mut nes, 0x2007, 0x01);
    write(&mut nes, 0x2006, 0x3f);
    write(&mut nes, 0x2006, 0x01);
    write(&mut nes, 0x2007, 0x20);
    write(&mut nes, 0x2001, 0x08);
    nes.mem.ppu.clear();
    nes.mem.ppu.draw();
    // with nametable 0 selected, the second nametable sits one screen
    // to the right: its cell 0 is off screen
    assert_eq!(rgb(&nes, 0, 0), (0x66, 0x66, 0x66));
    // scrolled almost a full screen right, its corner comes into view
    write(&mut nes, 0x2005, 255);
    write(&mut nes, 0x2005, 0);
    nes.mem.ppu.clear();
    nes.mem.ppu.draw();
    assert_eq!(rgb(&nes, 1, 0), (0xff, 0xfe, 0xff));
}
