use chip8::io::Screen;

struct Grid {
    cells: Vec<bool>,
    width: usize,
    height: usize,
}

impl Grid {
    fn new(width: usize, height: usize) -> Grid {
        Grid { cells: vec![false; width * height], width, height }
    }

    fn lit(&self) -> Vec<(usize, usize)> {
        let mut out = Vec::new();
        for (k, cell) in self.cells.iter().enumerate() {
            if *cell {
                out.push((k % self.width, k / self.width));
            }
        }
        out
    }
}

impl Screen for Grid {
    fn as_slice(&self) -> &[bool] {
        &self.cells
    }

    fn as_mut_slice(&mut self) -> &mut [bool] {
        &mut self.cells
    }

    fn get_width(&self) -> usize {
        self.width
    }

    fn get_height(&self) -> usize {
        self.height
    }
}

#[test]
fn draw_sets_the_leftmost_bit_first() {
    let mut g = Grid::new(64, 32);
    assert!(!g.draw(3, 2, 0b1010_0001));
    assert_eq!(g.lit(), vec![(3, 2), (5, 2), (10, 2)]);
}

#[test]
fn draw_wraps_columns_and_rows() {
    let mut g = Grid::new(64, 32);
    assert!(!g.draw(62, 33, 0b1111_0000));
    assert_eq!(g.lit(), vec![(0, 1), (1, 1), (62, 1), (63, 1)]);
    let mut g = Grid::new(64, 32);
    assert!(!g.draw(255, 255, 0b1100_0000));
    // 255 mod 64 is 63, 256 mod 64 is 0; 255 mod 32 is 31.
    assert_eq!(g.lit(), vec![(0, 31), (63, 31)]);
}

#[test]
fn draw_reports_a_pixel_put_out() {
    let mut g = Grid::new(64, 32);
    assert!(!g.draw(0, 0, 0b1100_0000));
    assert!(g.draw(1, 0, 0b1000_0000));
    assert_eq!(g.lit(), vec![(0, 0)]);
    assert!(!g.draw(1, 0, 0b1000_0000));
    assert_eq!(g.lit(), vec![(0, 0), (1, 0)]);
    assert!(!g.draw(0, 1, 0b1100_0000));
    assert!(!g.draw(0, 0, 0));
}

#[test]
fn draw_twice_gives_the_grid_back() {
    for (x, y, byte) in [(0u8, 0u8, 0xffu8), (60, 31, 0xa5), (200, 100, 0x81), (7, 7, 0x00)] {
        let mut g = Grid::new(64, 32);
        g.draw(58, y, 0b0110_1001);
        g.draw(2, 5, 0xff);
        let before = g.cells.clone();
        let lights = (0..8).any(|i| {
            (byte << i) & 0x80 != 0
                && !before[(y as usize % 32) * 64 + (x as usize + i) % 64]
        });
        g.draw(x, y, byte);
        let second = g.draw(x, y, byte);
        assert_eq!(g.cells, before);
        assert_eq!(second, lights);
    }
}

#[test]
fn draw_on_a_display_narrower_than_a_sprite() {
    // Four columns: bits 0 and 4 fall on column 0 and cancel.
    let mut g = Grid::new(4, 2);
    assert!(g.draw(0, 0, 0b1000_1000));
    assert_eq!(g.lit(), vec![]);
    assert!(!g.draw(0, 0, 0b1000_0100));
    assert_eq!(g.lit(), vec![(0, 0), (1, 0)]);
    // One column: eight bits on one pixel.
    let mut g = Grid::new(1, 1);
    assert!(g.draw(9, 9, 0b1110_0000));
    assert_eq!(g.lit(), vec![(0, 0)]);
    let before = g.cells.clone();
    let first = g.draw(0, 0, 0b1000_0001);
    let second = g.draw(0, 0, 0b1000_0001);
    assert!(first);
    assert!(second);
    assert_eq!(g.cells, before);
}

#[test]
fn clear_puts_every_pixel_out() {
    let mut g = Grid::new(64, 32);
    g.draw(0, 0, 0xff);
    g.draw(10, 31, 0xff);
    assert_eq!(g.lit().len(), 16);
    g.clear();
    assert_eq!(g.lit(), vec![]);
    assert_eq!(g.as_slice().len(), 64 * 32);
    assert_eq!(g.size(), (64, 32));
}
