use chip8::bus::Bus;
use chip8::cpu::Cpu;
use chip8::error::Error;
use chip8::io::Screen;
use chip8::io::IO;

struct Grid {
    cells: Vec<bool>,
    width: usize,
    height: usize,
}

impl Screen for Grid {
    fn as_slice(&self) -> &[bool] {
        &self.cells
    }

    fn as_mut_slice(&mut self) -> &mut [bool] {
        &mut self.cells
    }

    fn get_width(&self) -> usize {
        self.width
    }

    fn get_height(&self) -> usize {
        self.height
    }
}

struct Rig {
    cpu: Cpu,
    bus: Bus,
    grid: Grid,
    pad: [bool; 16],
    audio: bool,
}

impl Rig {
    /// A machine with `program` at 0x200 and the program counter on it.
    fn new(program: &[u8]) -> Rig {
        let mut rig = Rig {
            cpu: Cpu::new(),
            bus: Bus::new(),
            grid: Grid { cells: vec![false; 64 * 32], width: 64, height: 32 },
            pad: [false; 16],
            audio: false,
        };
        assert_eq!(rig.bus.ram.store(0x200, program), Ok(()));
        rig.cpu.init(0x200, 0x000);
        rig
    }

    fn cycle(&mut self) -> Result<(), Error> {
        let mut io = IO { screen: &mut self.grid, pad: &self.pad, audio: &mut self.audio };
        self.cpu.cycle(&mut self.bus, &mut io)
    }

    fn run(&mut self, cycles: usize) {
        for _ in 0..cycles {
            assert_eq!(self.cycle(), Ok(()));
        }
    }

    fn v(&self, x: usize) -> u8 {
        self.cpu.registers()[x]
    }

    fn lit(&self) -> Vec<(usize, usize)> {
        let mut out = Vec::new();
        for (k, cell) in self.grid.cells.iter().enumerate() {
            if *cell {
                out.push((k % 64, k / 64));
            }
        }
        out
    }
}

#[test]
fn set_then_add_end_to_end() {
    let mut rig = Rig::new(&[0x60, 0x05, 0x70, 0x03]);
    rig.run(2);
    assert_eq!(rig.v(0), 8);
    assert_eq!(rig.cpu.pc(), 0x204);
}

#[test]
fn clear_screen_puts_every_pixel_out() {
    let mut rig = Rig::new(&[0x00, 0xe0]);
    rig.grid.cells[0] = true;
    rig.grid.cells[700] = true;
    rig.grid.cells[2047] = true;
    rig.run(1);
    assert_eq!(rig.lit(), vec![]);
    assert_eq!(rig.cpu.pc(), 0x202);
}

#[test]
fn nop_goes_on() {
    let mut rig = Rig::new(&[0x00, 0x00]);
    rig.run(1);
    assert_eq!(rig.cpu.pc(), 0x202);
    assert_eq!(rig.cpu.registers(), &[0u8; 16]);
}

#[test]
fn jump_and_jump_with_offset() {
    let mut rig = Rig::new(&[0x1a, 0xbc]);
    rig.run(1);
    assert_eq!(rig.cpu.pc(), 0xabc);
    let mut rig = Rig::new(&[0x60, 0xff, 0xbf, 0xff]);
    rig.run(2);
    assert_eq!(rig.cpu.pc(), 0x0fff + 0xff);
}

#[test]
fn call_and_return() {
    // 0x200: call 0x206; 0x206: return
    let mut rig = Rig::new(&[0x22, 0x06, 0x00, 0x00, 0x00, 0x00, 0x00, 0xee]);
    rig.run(1);
    assert_eq!(rig.cpu.pc(), 0x206);
    assert_eq!(rig.cpu.depth(), 1);
    rig.run(1);
    assert_eq!(rig.cpu.pc(), 0x202);
    assert_eq!(rig.cpu.depth(), 0);
}

#[test]
fn return_with_an_empty_stack_fails() {
    let mut rig = Rig::new(&[0x00, 0xee]);
    assert_eq!(rig.cycle(), Err(Error::StackUnderflow));
    assert_eq!(rig.cpu.pc(), 0x200);
}

#[test]
fn seventeenth_call_fails() {
    // A subroutine that calls itself.
    let mut rig = Rig::new(&[0x22, 0x00]);
    rig.run(16);
    assert_eq!(rig.cpu.depth(), 16);
    assert_eq!(rig.cycle(), Err(Error::StackOverflow));
    assert_eq!(rig.cpu.depth(), 16);
    assert_eq!(rig.cpu.pc(), 0x200);
}

#[test]
fn skips() {
    // v0 = 0x11; skip if v0 == 0x11
    let mut rig = Rig::new(&[0x60, 0x11, 0x30, 0x11]);
    rig.run(2);
    assert_eq!(rig.cpu.pc(), 0x206);
    let mut rig = Rig::new(&[0x60, 0x11, 0x30, 0x12]);
    rig.run(2);
    assert_eq!(rig.cpu.pc(), 0x204);
    let mut rig = Rig::new(&[0x60, 0x11, 0x40, 0x11]);
    rig.run(2);
    assert_eq!(rig.cpu.pc(), 0x204);
    let mut rig = Rig::new(&[0x60, 0x11, 0x40, 0x12]);
    rig.run(2);
    assert_eq!(rig.cpu.pc(), 0x206);
    // v0 = 1; v1 = 1; skip if v0 == v1; (skipped); skip if v0 != v1
    let mut rig = Rig::new(&[0x60, 0x01, 0x61, 0x01, 0x50, 0x10, 0x00, 0x00, 0x90, 0x10]);
    rig.run(3);
    assert_eq!(rig.cpu.pc(), 0x208);
    rig.run(1);
    assert_eq!(rig.cpu.pc(), 0x20a);
}

#[test]
fn add_immediate_wraps_and_leaves_the_flag() {
    let mut rig = Rig::new(&[0x6f, 0x07, 0x60, 0xff, 0x70, 0x02]);
    rig.run(3);
    assert_eq!(rig.v(0), 0x01);
    assert_eq!(rig.v(0xf), 0x07);
}

#[test]
fn register_logic() {
    // v1 = 0b1100; v2 = 0b1010
    let set = [0x61, 0x0c, 0x62, 0x0a];
    let mut rig = Rig::new(&[&set[..], &[0x81, 0x20]].concat());
    rig.run(3);
    assert_eq!(rig.v(1), 0x0a);
    let mut rig = Rig::new(&[&set[..], &[0x81, 0x21]].concat());
    rig.run(3);
    assert_eq!(rig.v(1), 0x0e);
    let mut rig = Rig::new(&[&set[..], &[0x81, 0x22]].concat());
    rig.run(3);
    assert_eq!(rig.v(1), 0x08);
    let mut rig = Rig::new(&[&set[..], &[0x81, 0x23]].concat());
    rig.run(3);
    assert_eq!(rig.v(1), 0x06);
    assert_eq!(rig.v(2), 0x0a);
    assert_eq!(rig.v(0xf), 0);
}

#[test]
fn add_sets_the_carry() {
    let mut rig = Rig::new(&[0x61, 0xf0, 0x62, 0x20, 0x81, 0x24]);
    rig.run(3);
    assert_eq!(rig.v(1), 0x10);
    assert_eq!(rig.v(0xf), 1);
    let mut rig = Rig::new(&[0x6f, 0x09, 0x61, 0xf0, 0x62, 0x0f, 0x81, 0x24]);
    rig.run(4);
    assert_eq!(rig.v(1), 0xff);
    assert_eq!(rig.v(0xf), 0);
}

#[test]
fn the_flag_wins_where_the_flag_register_is_the_target() {
    // vf = 0xf0; v1 = 0x20; vf += v1 carries: vf is the carry, not the sum
    let mut rig = Rig::new(&[0x6f, 0xf0, 0x61, 0x20, 0x8f, 0x14]);
    rig.run(3);
    assert_eq!(rig.v(0xf), 1);
}

#[test]
fn subtract_both_ways() {
    let set = [0x61, 0x05, 0x62, 0x03];
    let mut rig = Rig::new(&[&set[..], &[0x81, 0x25]].concat());
    rig.run(3);
    assert_eq!(rig.v(1), 0x02);
    assert_eq!(rig.v(0xf), 1);
    let mut rig = Rig::new(&[&set[..], &[0x82, 0x15]].concat());
    rig.run(3);
    assert_eq!(rig.v(2), 0xfe);
    assert_eq!(rig.v(0xf), 0);
    let mut rig = Rig::new(&[&set[..], &[0x82, 0x17]].concat());
    rig.run(3);
    assert_eq!(rig.v(2), 0x02);
    assert_eq!(rig.v(0xf), 1);
    let mut rig = Rig::new(&[&set[..], &[0x81, 0x27]].concat());
    rig.run(3);
    assert_eq!(rig.v(1), 0xfe);
    assert_eq!(rig.v(0xf), 0);
    // Equal operands: the difference is zero and the flag is clear.
    let mut rig = Rig::new(&[0x61, 0x05, 0x62, 0x05, 0x81, 0x25]);
    rig.run(3);
    assert_eq!(rig.v(1), 0);
    assert_eq!(rig.v(0xf), 0);
}

#[test]
fn shifts_give_the_bit_shifted_out() {
    let mut rig = Rig::new(&[0x61, 0x05, 0x81, 0x06]);
    rig.run(2);
    assert_eq!(rig.v(1), 0x02);
    assert_eq!(rig.v(0xf), 1);
    let mut rig = Rig::new(&[0x61, 0x04, 0x81, 0x06]);
    rig.run(2);
    assert_eq!(rig.v(1), 0x02);
    assert_eq!(rig.v(0xf), 0);
    let mut rig = Rig::new(&[0x61, 0x81, 0x81, 0x0e]);
    rig.run(2);
    assert_eq!(rig.v(1), 0x02);
    assert_eq!(rig.v(0xf), 1);
    let mut rig = Rig::new(&[0x61, 0x41, 0x81, 0x0e]);
    rig.run(2);
    assert_eq!(rig.v(1), 0x82);
    assert_eq!(rig.v(0xf), 0);
}

#[test]
fn index_register() {
    let mut rig = Rig::new(&[0xa1, 0x23, 0x60, 0xff, 0xf0, 0x1e]);
    rig.run(1);
    assert_eq!(rig.cpu.index(), 0x123);
    rig.run(2);
    assert_eq!(rig.cpu.index(), 0x222);
}

#[test]
fn font_address() {
    let mut rig = Rig::new(&[0x60, 0x0a, 0xf0, 0x29]);
    rig.cpu.init(0x200, 0x050);
    rig.run(2);
    assert_eq!(rig.cpu.index(), 0x050 + 5 * 0x0a);
}

#[test]
fn random_is_masked() {
    let mut rig = Rig::new(&[0xc0, 0xff, 0xc1, 0x0f, 0xc2, 0x00]);
    assert_eq!(rig.bus.rng.seed(0xcafe), Ok(()));
    rig.run(3);
    assert_eq!(rig.v(0), 0xc0);
    assert_eq!(rig.v(1), 0x0d & 0x0f);
    assert_eq!(rig.v(2), 0x00);
    assert_eq!(rig.bus.rng.get_byte(), 0xe4);
}

#[test]
fn draw_a_sprite() {
    // i = 0x20a; v0 = 62; v1 = 31; draw 2 rows at (v0, v1)
    let mut rig =
        Rig::new(&[0xa2, 0x0a, 0x60, 0x3e, 0x61, 0x1f, 0xd0, 0x12, 0x00, 0x00, 0xc0, 0x81]);
    rig.run(4);
    assert_eq!(rig.lit(), vec![(5, 0), (62, 0), (62, 31), (63, 31)]);
    assert_eq!(rig.v(0xf), 0);
    assert_eq!(rig.cpu.pc(), 0x208);
}

#[test]
fn draw_reports_collision_in_any_row() {
    // Rows 0xc0 and 0x81 drawn twice at (0, 0): the second time every pixel
    // goes out and the flag is set.
    let mut rig = Rig::new(&[0xa2, 0x06, 0xd0, 0x02, 0xd0, 0x02, 0xc0, 0x81]);
    rig.run(2);
    assert_eq!(rig.lit(), vec![(0, 0), (1, 0), (0, 1), (7, 1)]);
    assert_eq!(rig.v(0xf), 0);
    rig.run(1);
    assert_eq!(rig.lit(), vec![]);
    assert_eq!(rig.v(0xf), 1);
    // Only the first row collides: the flag stays set after the second row.
    let mut rig = Rig::new(&[0xa2, 0x04, 0xd0, 0x02, 0x80, 0x00]);
    rig.grid.cells[0] = true;
    rig.run(2);
    assert_eq!(rig.lit(), vec![]);
    assert_eq!(rig.v(0xf), 1);
}

#[test]
fn draw_no_rows_clears_the_flag() {
    let mut rig = Rig::new(&[0x6f, 0x05, 0xd0, 0x00]);
    rig.run(2);
    assert_eq!(rig.v(0xf), 0);
    assert_eq!(rig.lit(), vec![]);
}

#[test]
fn draw_beyond_memory_stops_and_keeps_the_rows_drawn() {
    // i = 0xfff; vf = 7; draw 2 rows: the second byte is beyond memory
    let mut rig = Rig::new(&[0xaf, 0xff, 0x6f, 0x07, 0xd0, 0x02]);
    assert_eq!(rig.bus.ram.write(0xfff, 0x80), Ok(()));
    rig.run(2);
    assert_eq!(rig.cycle(), Err(Error::AddressOutOfRange(0x1000)));
    assert_eq!(rig.lit(), vec![(0, 0)]);
    assert_eq!(rig.v(0xf), 7);
    assert_eq!(rig.cpu.pc(), 0x204);
}

#[test]
fn key_skips() {
    let mut rig = Rig::new(&[0x60, 0x0a, 0xe0, 0x9e]);
    rig.pad[0xa] = true;
    rig.run(2);
    assert_eq!(rig.cpu.pc(), 0x206);
    let mut rig = Rig::new(&[0x60, 0x0a, 0xe0, 0x9e]);
    rig.run(2);
    assert_eq!(rig.cpu.pc(), 0x204);
    let mut rig = Rig::new(&[0x60, 0x0a, 0xe0, 0xa1]);
    rig.pad[0xa] = true;
    rig.run(2);
    assert_eq!(rig.cpu.pc(), 0x204);
    let mut rig = Rig::new(&[0x60, 0x0a, 0xe0, 0xa1]);
    rig.run(2);
    assert_eq!(rig.cpu.pc(), 0x206);
}

#[test]
fn key_index_out_of_range() {
    let mut rig = Rig::new(&[0x60, 0x10, 0xe0, 0x9e]);
    rig.run(1);
    assert_eq!(rig.cycle(), Err(Error::KeyIndexOutOfRange(0x10)));
    assert_eq!(rig.cpu.pc(), 0x202);
    let mut rig = Rig::new(&[0x60, 0xff, 0xe0, 0xa1]);
    rig.run(1);
    assert_eq!(rig.cycle(), Err(Error::KeyIndexOutOfRange(0xff)));
}

#[test]
fn wait_for_a_key() {
    let mut rig = Rig::new(&[0xf3, 0x0a]);
    rig.run(3);
    assert_eq!(rig.cpu.pc(), 0x200);
    assert_eq!(rig.v(3), 0);
    rig.pad[0xc] = true;
    rig.pad[0x5] = true;
    rig.run(1);
    assert_eq!(rig.cpu.pc(), 0x202);
    assert_eq!(rig.v(3), 0x5);
}

#[test]
fn timers_from_the_program() {
    // v0 = 9; dt = v0; st = v0; v1 = dt
    let mut rig = Rig::new(&[0x60, 0x09, 0xf0, 0x15, 0xf0, 0x18, 0xf1, 0x07]);
    rig.run(3);
    assert_eq!(rig.bus.dt.get(), 9);
    assert_eq!(rig.bus.st.get(), 9);
    rig.bus.dt.clock();
    rig.run(1);
    assert_eq!(rig.v(1), 8);
}

#[test]
fn decimal_digits() {
    let mut rig = Rig::new(&[0x60, 0xea, 0xa3, 0x00, 0xf0, 0x33]);
    rig.run(3);
    assert_eq!(rig.bus.ram.read(0x300), Ok(2));
    assert_eq!(rig.bus.ram.read(0x301), Ok(3));
    assert_eq!(rig.bus.ram.read(0x302), Ok(4));
    assert_eq!(rig.bus.ram.read(0x303), Ok(0));
    let mut rig = Rig::new(&[0x60, 0x07, 0xaf, 0xfe, 0xf0, 0x33]);
    rig.run(2);
    assert_eq!(rig.cycle(), Err(Error::AddressOutOfRange(0x1000)));
    assert_eq!(rig.bus.ram.read(0xffe), Ok(0));
    assert_eq!(rig.bus.ram.read(0xfff), Ok(0));
    assert_eq!(rig.cpu.pc(), 0x204);
}

#[test]
fn dump_and_load_registers() {
    // v0 = 1; v1 = 2; v2 = 3; i = 0x300; dump v0..=v1
    let mut rig = Rig::new(&[0x60, 0x01, 0x61, 0x02, 0x62, 0x03, 0xa3, 0x00, 0xf1, 0x55]);
    rig.run(5);
    assert_eq!(rig.bus.ram.read(0x300), Ok(1));
    assert_eq!(rig.bus.ram.read(0x301), Ok(2));
    assert_eq!(rig.bus.ram.read(0x302), Ok(0));
    assert_eq!(rig.cpu.index(), 0x300);
    // i = 0x204; load v0..=v2
    let mut rig = Rig::new(&[0xa2, 0x04, 0xf2, 0x65, 0x0a, 0x0b, 0x0c, 0x0d]);
    rig.run(2);
    assert_eq!(rig.v(0), 0x0a);
    assert_eq!(rig.v(1), 0x0b);
    assert_eq!(rig.v(2), 0x0c);
    assert_eq!(rig.v(3), 0x00);
    assert_eq!(rig.cpu.index(), 0x204);
}

#[test]
fn dump_and_load_stop_at_the_end_of_memory() {
    // v0 = 1; v1 = 2; i = 0xfff; dump v0..=v1
    let mut rig = Rig::new(&[0x60, 0x01, 0x61, 0x02, 0xaf, 0xff, 0xf1, 0x55]);
    rig.run(3);
    assert_eq!(rig.cycle(), Err(Error::AddressOutOfRange(0x1000)));
    assert_eq!(rig.bus.ram.read(0xfff), Ok(1));
    // v0 = 1; v1 = 2; i = 0xfff; load v0..=v1
    let mut rig = Rig::new(&[0x60, 0x01, 0x61, 0x02, 0xaf, 0xff, 0xf1, 0x65]);
    assert_eq!(rig.bus.ram.write(0xfff, 0x77), Ok(()));
    rig.run(3);
    assert_eq!(rig.cycle(), Err(Error::AddressOutOfRange(0x1000)));
    assert_eq!(rig.v(0), 0x77);
    assert_eq!(rig.v(1), 0x02);
}

#[test]
fn unknown_opcodes() {
    for (hi, lo) in [(0x00u8, 0x01u8), (0x51, 0x21), (0x81, 0x28), (0x91, 0x21), (0xe1, 0x00), (0xf1, 0x00), (0x0f, 0xff)] {
        let mut rig = Rig::new(&[hi, lo]);
        assert_eq!(rig.cycle(), Err(Error::UnknownOpcode(hi >> 4, hi & 0xf, lo >> 4, lo & 0xf)));
        assert_eq!(rig.cpu.pc(), 0x200);
    }
}

#[test]
fn fetch_beyond_memory_fails() {
    let mut rig = Rig::new(&[]);
    rig.cpu.init(0x0fff, 0);
    assert_eq!(rig.cycle(), Err(Error::AddressOutOfRange(0x1000)));
    rig.cpu.init(0x1000, 0);
    assert_eq!(rig.cycle(), Err(Error::AddressOutOfRange(0x1000)));
    rig.cpu.init(0xffff, 0);
    assert_eq!(rig.cycle(), Err(Error::AddressOutOfRange(0xffff)));
    assert_eq!(rig.cpu.pc(), 0xffff);
}

#[test]
fn cycle_leaves_the_keys_and_the_buzzer_alone() {
    let mut rig = Rig::new(&[0x60, 0x05, 0xf0, 0x18]);
    rig.audio = true;
    rig.pad[3] = true;
    rig.run(2);
    assert!(rig.audio);
    assert!(rig.pad[3]);
}
