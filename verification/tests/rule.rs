use gpu_life::generation::{Grid, GenerationBuffer};
use gpu_life::raster::{ImageSource, Raster};

fn buffer_from(current: Grid) -> GenerationBuffer {
    let w = current.width;
    let h = current.height;
    GenerationBuffer { current, next: Grid::filled(w, h, 0) }
}

fn advance(cells: Vec<u8>) -> Vec<u8> {
    let mut buf = buffer_from(Grid::from_cells(3, 3, cells));
    buf.compute_pass();
    buf.copy_pass();
    buf.current.cells.clone()
}

#[test]
fn lone_cell_dies() {
    let next = advance(vec![
        0, 0, 0, //
        0, 255, 0, //
        0, 0, 0,
    ]);
    assert_eq!(next[4], 0);
}

#[test]
fn cell_with_one_neighbor_dies() {
    let next = advance(vec![
        255, 0, 0, //
        0, 255, 0, //
        0, 0, 0,
    ]);
    assert_eq!(next[4], 0);
}

#[test]
fn cell_with_two_neighbors_survives() {
    let next = advance(vec![
        255, 0, 0, //
        0, 255, 0, //
        0, 0, 255,
    ]);
    assert_eq!(next[4], 255);
}

#[test]
fn cell_with_three_neighbors_survives() {
    let next = advance(vec![
        255, 0, 255, //
        0, 255, 0, //
        0, 0, 255,
    ]);
    assert_eq!(next[4], 255);
}

#[test]
fn cell_with_four_neighbors_dies() {
    let next = advance(vec![
        255, 0, 255, //
        0, 255, 0, //
        255, 0, 255,
    ]);
    assert_eq!(next[4], 0);
}

#[test]
fn dead_cell_with_three_neighbors_is_born() {
    let next = advance(vec![
        255, 0, 255, //
        0, 0, 0, //
        0, 255, 0,
    ]);
    assert_eq!(next[4], 255);
}

#[test]
fn blinker_flips_byte_exact() {
    // A horizontal bar across the middle row becomes a vertical bar down
    // the middle column; any non-zero byte counts as live, the written
    // bytes are exactly 255 and 0.
    let next = advance(vec![
        0, 0, 0, //
        255, 1, 255, //
        0, 0, 0,
    ]);
    let expected: Vec<u8> = vec![
        0, 255, 0, //
        0, 255, 0, //
        0, 255, 0,
    ];
    assert_eq!(next, expected);
}

#[test]
fn blinker_oscillates_with_period_two() {
    let bar: Vec<u8> = vec![
        0, 0, 0, //
        255, 255, 255, //
        0, 0, 0,
    ];
    let mut buf = buffer_from(Grid::from_cells(3, 3, bar.clone()));
    buf.advance();
    assert_eq!(buf.current.cells, vec![0, 255, 0, 0, 255, 0, 0, 255, 0]);
    buf.advance();
    assert_eq!(buf.current.cells, bar);
}

#[test]
fn copy_pass_twice_leaves_current_unchanged() {
    let mut buf = GenerationBuffer {
        current: Grid::from_cells(2, 2, vec![9, 9, 9, 9]),
        next: Grid::from_cells(2, 2, vec![1, 2, 3, 4]),
    };
    buf.copy_pass();
    let after_first = buf.current.cells.clone();
    buf.copy_pass();
    assert_eq!(buf.current.cells, after_first);
    assert_eq!(buf.current.cells, vec![1, 2, 3, 4]);
}

#[test]
fn compute_pass_leaves_current_untouched() {
    let mut buf = buffer_from(Grid::from_cells(3, 3, vec![0, 0, 0, 255, 255, 255, 0, 0, 0]));
    buf.compute_pass();
    assert_eq!(buf.current.cells, vec![0, 0, 0, 255, 255, 255, 0, 0, 0]);
    assert_eq!(buf.next.cells, vec![0, 255, 0, 0, 255, 0, 0, 255, 0]);
}

#[test]
fn allocate_starts_dead() {
    let buf = GenerationBuffer::allocate(4, 2);
    assert_eq!(buf.current.cells, vec![0; 8]);
    assert_eq!(buf.next.cells, vec![0; 8]);
    assert_eq!(buf.current.width, 4);
    assert_eq!(buf.current.height, 2);
}

#[test]
fn seed_pastes_raster_and_pads_dead() {
    let mut buf = GenerationBuffer::allocate(4, 4);
    let raster = Raster::from_pixels(2, 2, vec![1, 2, 3, 4]);
    buf.seed(&ImageSource::Pixels(raster));
    let expected: Vec<u8> = vec![
        1, 2, 0, 0, //
        3, 4, 0, 0, //
        0, 0, 0, 0, //
        0, 0, 0, 0,
    ];
    assert_eq!(buf.current.cells, expected);
    assert_eq!(buf.next.cells, vec![0; 16]);
}

#[test]
fn seed_empty_fills_dead() {
    let mut buf = GenerationBuffer {
        current: Grid::from_cells(2, 2, vec![7, 7, 7, 7]),
        next: Grid::from_cells(2, 2, vec![5, 5, 5, 5]),
    };
    buf.seed(&ImageSource::Empty { width: 2, height: 2 });
    assert_eq!(buf.current.cells, vec![0, 0, 0, 0]);
    assert_eq!(buf.next.cells, vec![5, 5, 5, 5]);
}
