use heavens::grid::{count, DensityGrid};
use heavens::text::format_count;

fn all_cells(g: &DensityGrid) -> Vec<Vec<u8>> {
    let n = g.rows();
    let mut out = Vec::new();
    for i in 0..n {
        let mut row = Vec::new();
        for j in 0..n {
            row.push(g.get(i, j));
        }
        out.push(row);
    }
    out
}

#[test]
fn empty_store_gives_zero_grid() {
    let g = count(4, &Vec::new());
    assert_eq!(g.rows(), 4);
    assert_eq!(all_cells(&g), vec![vec![0u8; 4]; 4]);
}

#[test]
fn empty_store_zero_resolution() {
    let g = count(0, &Vec::new());
    assert_eq!(g.rows(), 0);
    assert_eq!(format_count(&g), "");
}

#[test]
fn single_tracer_at_center_raises_one_cell() {
    let g = count(4, &vec![(2, 2)]);
    let cells = all_cells(&g);
    for i in 0..4 {
        for j in 0..4 {
            let expected = if i == 2 && j == 2 { 1 } else { 0 };
            assert_eq!(cells[i][j], expected);
        }
    }
}

#[test]
fn cells_are_column_then_row() {
    let g = count(3, &vec![(2, 0), (2, 0), (0, 1)]);
    assert_eq!(g.get(0, 2), 2);
    assert_eq!(g.get(1, 0), 1);
    assert_eq!(g.get(2, 0), 0);
    assert_eq!(g.get(0, 0), 0);
}

#[test]
fn cells_outside_grid_are_skipped() {
    let g = count(2, &vec![(-1, 0), (0, -1), (2, 0), (0, 2), (i64::MAX, 0), (1, 1)]);
    assert_eq!(all_cells(&g), vec![vec![0, 0], vec![0, 1]]);
}

#[test]
fn counts_saturate_at_255() {
    let cells = vec![(0i64, 0i64); 300];
    let g = count(1, &cells);
    assert_eq!(g.get(0, 0), 255);
    let g = count(1, &vec![(0i64, 0i64); 255]);
    assert_eq!(g.get(0, 0), 255);
    let g = count(1, &vec![(0i64, 0i64); 254]);
    assert_eq!(g.get(0, 0), 254);
}

#[test]
fn format_blank_grid() {
    let g = count(2, &Vec::new());
    assert_eq!(format_count(&g), "      \n      \n");
}

#[test]
fn format_glyphs_for_small_counts() {
    let g = count(4, &vec![(1, 0), (2, 0), (2, 0), (3, 0), (3, 0), (3, 0)]);
    assert_eq!(
        format_count(&g),
        "    .  :  * \n            \n            \n            \n"
    );
}

#[test]
fn format_numbers_from_four() {
    let mut cells = vec![(0i64, 0i64); 4];
    cells.extend(vec![(1i64, 0i64); 42]);
    cells.extend(vec![(0i64, 1i64); 300]);
    cells.extend(vec![(1i64, 1i64); 100]);
    let g = count(2, &cells);
    assert_eq!(format_count(&g), " 4  42 \n 255  100 \n");
}

#[test]
fn end_to_end_center_tracer_grid() {
    let g = count(4, &vec![(2, 2)]);
    assert_eq!(
        format_count(&g),
        "            \n            \n       .    \n            \n"
    );
}
