use tetris::draw::DrawCell;
use tetris::game::Field;
use tetris::tetrimino::{Point, Shape};
use tetris::{BUFFER_ROWS, HEIGHT, ROWS, WIDTH};

/// Occupies every column of row `y` but those in `holes`.
fn fill_row(field: &mut Field, y: i8, holes: &[i8], shape: Shape) {
    for x in 0..WIDTH as i8 {
        if !holes.contains(&x) {
            field.set_occupied([(x, y); 4], shape);
        }
    }
}

fn row(field: &Field, y: usize) -> Vec<Option<Shape>> {
    (0..WIDTH).map(|x| field.cell(x, y)).collect()
}

fn grid(field: &Field) -> Vec<Vec<Option<Shape>>> {
    (0..ROWS).map(|y| row(field, y)).collect()
}

#[test]
fn well_has_ten_columns_and_twenty_rows_under_four_more() {
    assert_eq!(WIDTH, 10);
    assert_eq!(HEIGHT, 20);
    assert_eq!(BUFFER_ROWS, 4);
    assert_eq!(ROWS, 24);
}

#[test]
fn new_field_is_empty() {
    let field = Field::new();
    assert_eq!(grid(&field), vec![vec![None; WIDTH]; ROWS]);
    assert_eq!(field.render(), vec![]);
}

#[test]
fn cell_outside_the_well_reads_empty() {
    let mut field = Field::new();
    fill_row(&mut field, 23, &[], Shape::O);
    assert_eq!(field.cell(9, 23), Some(Shape::O));
    assert_eq!(field.cell(10, 23), None);
    assert_eq!(field.cell(9, 24), None);
    assert_eq!(field.cell(usize::MAX, usize::MAX), None);
}

#[test]
fn free_cells_inside_are_not_occupied() {
    let field = Field::new();
    assert!(!field.is_occupied([(0, 0), (9, 0), (0, 23), (9, 23)]));
    assert!(!field.is_occupied([(5, 22), (4, 22), (5, 21), (4, 21)]));
}

#[test]
fn left_of_the_wall_is_occupied() {
    let field = Field::new();
    assert!(field.is_occupied([(-1, 5), (0, 5), (1, 5), (2, 5)]));
    assert!(field.is_occupied([(0, 5), (1, 5), (2, 5), (-1, 5)]));
    assert!(field.is_occupied([(-128, 5); 4]));
}

#[test]
fn right_of_the_wall_is_occupied() {
    let field = Field::new();
    assert!(field.is_occupied([(7, 5), (8, 5), (9, 5), (10, 5)]));
    assert!(field.is_occupied([(10, 5), (9, 5), (8, 5), (7, 5)]));
    assert!(field.is_occupied([(127, 5); 4]));
}

#[test]
fn below_the_floor_is_occupied() {
    let field = Field::new();
    assert!(field.is_occupied([(4, 1), (4, 0), (5, 0), (5, -1)]));
    assert!(field.is_occupied([(4, -128); 4]));
}

#[test]
fn outside_is_occupied_whatever_the_grid_holds() {
    let mut field = Field::new();
    for y in 0..ROWS as i8 {
        fill_row(&mut field, y, &[3], Shape::J);
    }
    assert!(!field.is_occupied([(3, 0), (3, 1), (3, 2), (3, 3)]));
    assert!(field.is_occupied([(3, 0), (3, 1), (3, 2), (3, -1)]));
    assert!(field.is_occupied([(-1, 0), (3, 1), (3, 2), (3, 3)]));
    assert!(field.is_occupied([(3, 0), (10, 1), (3, 2), (3, 3)]));
}

#[test]
fn there_is_no_ceiling() {
    let mut field = Field::new();
    assert!(!field.is_occupied([(4, 24), (4, 25), (4, 100), (4, 127)]));
    fill_row(&mut field, 23, &[], Shape::I);
    assert!(!field.is_occupied([(4, 24), (4, 25), (4, 100), (4, 127)]));
    assert!(field.is_occupied([(4, 24), (4, 25), (4, 23), (4, 127)]));
    assert!(field.is_occupied([(10, 24); 4]));
}

#[test]
fn a_locked_cell_is_occupied() {
    let mut field = Field::new();
    field.set_occupied([(2, 0), (3, 0), (4, 0), (5, 0)], Shape::I);
    assert!(field.is_occupied([(5, 0), (6, 0), (7, 0), (8, 0)]));
    assert!(field.is_occupied([(2, 3), (2, 2), (2, 1), (2, 0)]));
    assert!(!field.is_occupied([(6, 0), (7, 0), (8, 0), (9, 0)]));
    assert!(!field.is_occupied([(2, 1), (3, 1), (4, 1), (5, 1)]));
}

#[test]
fn occupied_right_after_locking() {
    let shapes = Shape::all();
    let mut field = Field::new();
    let mut turn = 0;
    for y in (0..ROWS as i8 - 1).step_by(2) {
        for x in (0..WIDTH as i8 - 1).step_by(2) {
            let points: [Point; 4] = [(x + 1, y + 1), (x, y + 1), (x + 1, y), (x, y)];
            assert!(!field.is_occupied(points));
            field.set_occupied(points, shapes[turn % 7]);
            assert!(field.is_occupied(points));
            for point in points {
                assert!(field.is_occupied([point; 4]));
            }
            turn += 1;
        }
    }
}

#[test]
fn locking_writes_the_shape_into_exactly_its_cells() {
    let mut field = Field::new();
    field.set_occupied([(0, 2), (1, 1), (0, 1), (1, 0)], Shape::S);
    let mut expected = vec![vec![None; WIDTH]; ROWS];
    expected[2][0] = Some(Shape::S);
    expected[1][1] = Some(Shape::S);
    expected[1][0] = Some(Shape::S);
    expected[0][1] = Some(Shape::S);
    assert_eq!(grid(&field), expected);
    field.set_occupied([(9, 23), (8, 23), (9, 22), (8, 22)], Shape::O);
    expected[23][9] = Some(Shape::O);
    expected[23][8] = Some(Shape::O);
    expected[22][9] = Some(Shape::O);
    expected[22][8] = Some(Shape::O);
    assert_eq!(grid(&field), expected);
}

#[test]
fn locking_over_a_locked_cell_overwrites_it() {
    let mut field = Field::new();
    field.set_occupied([(4, 0), (5, 0), (6, 0), (7, 0)], Shape::I);
    field.set_occupied([(7, 1), (7, 0), (8, 0), (8, 1)], Shape::O);
    assert_eq!(field.cell(6, 0), Some(Shape::I));
    assert_eq!(field.cell(7, 0), Some(Shape::O));
    assert_eq!(field.cell(8, 1), Some(Shape::O));
}

#[test]
fn nothing_is_cleared_while_no_row_is_full() {
    let mut field = Field::new();
    fill_row(&mut field, 0, &[3], Shape::L);
    fill_row(&mut field, 1, &[9], Shape::L);
    let before = grid(&field);
    assert_eq!(field.update_lines([(0, 0), (0, 1), (1, 0), (1, 1)]), 0);
    assert_eq!(grid(&field), before);
}

#[test]
fn one_full_row_is_cleared_and_the_rows_above_move_down() {
    let mut field = Field::new();
    fill_row(&mut field, 0, &[], Shape::I);
    fill_row(&mut field, 1, &[2, 7], Shape::T);
    fill_row(&mut field, 2, &[0, 1, 2, 3, 4], Shape::Z);
    let before = grid(&field);
    assert_eq!(field.update_lines([(3, 0), (4, 0), (5, 0), (6, 0)]), 1);
    let after = grid(&field);
    assert_eq!(after.len(), ROWS);
    assert_eq!(after[0], before[1]);
    assert_eq!(after[1], before[2]);
    for y in 2..ROWS {
        assert_eq!(after[y], vec![None; WIDTH]);
    }
}

#[test]
fn a_cleared_row_under_empty_rows_is_empty_afterwards() {
    let mut field = Field::new();
    fill_row(&mut field, 0, &[5], Shape::J);
    fill_row(&mut field, 1, &[], Shape::I);
    let before = grid(&field);
    assert_eq!(field.update_lines([(5, 4), (5, 3), (5, 2), (5, 1)]), 1);
    let after = grid(&field);
    assert_eq!(after.len(), ROWS);
    assert_eq!(after[0], before[0]);
    assert_eq!(after[1], vec![None; WIDTH]);
}

#[test]
fn the_topmost_row_can_be_cleared() {
    let mut field = Field::new();
    fill_row(&mut field, 22, &[0], Shape::S);
    fill_row(&mut field, 23, &[], Shape::S);
    let before = grid(&field);
    assert_eq!(field.update_lines([(0, 23); 4]), 1);
    let after = grid(&field);
    assert_eq!(after[22], before[22]);
    assert_eq!(after[23], vec![None; WIDTH]);
}

#[test]
fn a_full_row_that_no_point_touches_stays() {
    let mut field = Field::new();
    fill_row(&mut field, 0, &[], Shape::I);
    fill_row(&mut field, 2, &[], Shape::I);
    let before = grid(&field);
    assert_eq!(field.update_lines([(0, 1), (1, 1), (0, 3), (1, 3)]), 0);
    assert_eq!(grid(&field), before);
    assert_eq!(field.update_lines([(0, 2), (1, 2), (0, 3), (1, 3)]), 1);
    let after = grid(&field);
    assert_eq!(after[0], before[0]);
    assert_eq!(after[1], before[1]);
    assert_eq!(after[2], vec![None; WIDTH]);
}

#[test]
fn a_row_counts_once_however_many_points_lie_in_it() {
    let mut field = Field::new();
    fill_row(&mut field, 0, &[], Shape::O);
    fill_row(&mut field, 1, &[], Shape::O);
    fill_row(&mut field, 2, &[4], Shape::T);
    assert_eq!(field.update_lines([(5, 1), (4, 1), (5, 0), (4, 0)]), 2);
    let after = grid(&field);
    let mut rest = vec![Some(Shape::T); WIDTH];
    rest[4] = None;
    assert_eq!(after[0], rest);
    for y in 1..ROWS {
        assert_eq!(after[y], vec![None; WIDTH]);
    }
}

#[test]
fn four_rows_are_cleared_at_once_in_any_order_of_points() {
    for points in [
        [(3, 3), (3, 2), (3, 1), (3, 0)],
        [(3, 0), (3, 1), (3, 2), (3, 3)],
        [(3, 2), (3, 0), (3, 3), (3, 1)],
    ] {
        let mut field = Field::new();
        for y in 0..4 {
            fill_row(&mut field, y, &[], Shape::I);
        }
        fill_row(&mut field, 4, &[0], Shape::L);
        fill_row(&mut field, 5, &[9], Shape::J);
        let before = grid(&field);
        assert_eq!(field.update_lines(points), 4);
        let after = grid(&field);
        assert_eq!(after[0], before[4]);
        assert_eq!(after[1], before[5]);
        for y in 2..ROWS {
            assert_eq!(after[y], vec![None; WIDTH]);
        }
    }
}

#[test]
fn rows_between_cleared_rows_keep_their_order() {
    let mut field = Field::new();
    fill_row(&mut field, 0, &[], Shape::I);
    fill_row(&mut field, 1, &[1], Shape::S);
    fill_row(&mut field, 2, &[], Shape::I);
    fill_row(&mut field, 3, &[3], Shape::Z);
    let before = grid(&field);
    assert_eq!(field.update_lines([(0, 0), (0, 1), (0, 2), (0, 3)]), 2);
    let after = grid(&field);
    assert_eq!(after[0], before[1]);
    assert_eq!(after[1], before[3]);
    for y in 2..ROWS {
        assert_eq!(after[y], vec![None; WIDTH]);
    }
}

#[test]
fn points_outside_the_well_touch_no_row() {
    let mut field = Field::new();
    fill_row(&mut field, 0, &[], Shape::I);
    let before = grid(&field);
    assert_eq!(field.update_lines([(0, -1), (0, 24), (0, 127), (0, -128)]), 0);
    assert_eq!(grid(&field), before);
    assert_eq!(field.update_lines([(-5, 0), (0, 24), (0, 127), (0, -128)]), 1);
    assert_eq!(grid(&field), vec![vec![None; WIDTH]; ROWS]);
}

#[test]
fn field_renders_occupied_cells_row_by_row() {
    let mut field = Field::new();
    field.set_occupied([(9, 0), (0, 0), (9, 0), (0, 0)], Shape::L);
    field.set_occupied([(4, 19), (4, 19), (4, 19), (4, 19)], Shape::T);
    field.set_occupied([(5, 23), (3, 1), (5, 23), (3, 1)], Shape::Z);
    let cell = |shape: Shape, x: i32, y: i32| DrawCell { shape, x, y, width: 32, height: 32 };
    assert_eq!(
        field.render(),
        vec![
            cell(Shape::L, 0, 608),
            cell(Shape::L, 288, 608),
            cell(Shape::Z, 96, 576),
            cell(Shape::T, 128, 0),
            cell(Shape::Z, 160, -128),
        ]
    );
}
