use tetris::tetrimino::{catalog, Point, Rgb, Shape, TetriminoModel, SHAPE_COUNT};

fn states(shape: Shape) -> Vec<[Point; 4]> {
    TetriminoModel::new(shape).states
}

#[test]
fn every_shape_has_its_number_of_rotation_states() {
    assert_eq!(states(Shape::O).len(), 1);
    assert_eq!(states(Shape::I).len(), 2);
    assert_eq!(states(Shape::S).len(), 2);
    assert_eq!(states(Shape::Z).len(), 2);
    assert_eq!(states(Shape::L).len(), 4);
    assert_eq!(states(Shape::J).len(), 4);
    assert_eq!(states(Shape::T).len(), 4);
}

#[test]
fn rotation_states_of_o() {
    assert_eq!(states(Shape::O), vec![[(1, 1), (0, 1), (1, 0), (0, 0)]]);
}

#[test]
fn rotation_states_of_i() {
    assert_eq!(
        states(Shape::I),
        vec![[(1, 2), (1, 1), (1, 0), (1, -1)], [(2, 0), (1, 0), (-1, 0), (0, 0)]]
    );
}

#[test]
fn rotation_states_of_s() {
    assert_eq!(
        states(Shape::S),
        vec![[(0, 1), (1, 0), (0, 0), (1, -1)], [(1, 0), (0, 0), (0, -1), (-1, -1)]]
    );
}

#[test]
fn rotation_states_of_z() {
    assert_eq!(
        states(Shape::Z),
        vec![[(1, 1), (1, 0), (0, 0), (0, -1)], [(0, 0), (-1, 0), (1, -1), (0, -1)]]
    );
}

#[test]
fn rotation_states_of_l() {
    assert_eq!(
        states(Shape::L),
        vec![
            [(0, 1), (0, 0), (1, -1), (0, -1)],
            [(1, 0), (0, 0), (-1, 0), (-1, -1)],
            [(0, 1), (-1, 1), (0, 0), (0, -1)],
            [(1, 1), (1, 0), (0, 0), (-1, 0)],
        ]
    );
}

#[test]
fn rotation_states_of_j() {
    assert_eq!(
        states(Shape::J),
        vec![
            [(0, 1), (0, 0), (0, -1), (-1, -1)],
            [(-1, 1), (1, 0), (0, 0), (-1, 0)],
            [(1, 1), (0, 1), (0, 0), (0, -1)],
            [(1, 0), (0, 0), (-1, 0), (1, -1)],
        ]
    );
}

#[test]
fn rotation_states_of_t() {
    assert_eq!(
        states(Shape::T),
        vec![
            [(0, 1), (1, 0), (0, 0), (-1, 0)],
            [(0, 1), (1, 0), (0, 0), (0, -1)],
            [(1, 0), (0, 0), (-1, 0), (0, -1)],
            [(0, 1), (0, 0), (-1, 0), (0, -1)],
        ]
    );
}

#[test]
fn every_shape_has_its_colour() {
    let colour = |shape: Shape| TetriminoModel::new(shape).color;
    assert_eq!(colour(Shape::O), Rgb { r: 0, g: 0, b: 255 });
    assert_eq!(colour(Shape::I), Rgb { r: 0, g: 255, b: 255 });
    assert_eq!(colour(Shape::S), Rgb { r: 255, g: 255, b: 0 });
    assert_eq!(colour(Shape::Z), Rgb { r: 0, g: 255, b: 0 });
    assert_eq!(colour(Shape::L), Rgb { r: 255, g: 0, b: 0 });
    assert_eq!(colour(Shape::J), Rgb { r: 255, g: 165, b: 0 });
    assert_eq!(colour(Shape::T), Rgb { r: 255, g: 0, b: 255 });
}

#[test]
fn model_remembers_its_shape() {
    for shape in Shape::all() {
        assert_eq!(TetriminoModel::new(shape).shape, shape);
    }
}

#[test]
fn shapes_are_listed_in_catalog_order() {
    assert_eq!(SHAPE_COUNT, 7);
    assert_eq!(
        Shape::all(),
        [Shape::O, Shape::I, Shape::S, Shape::Z, Shape::L, Shape::J, Shape::T]
    );
    for (position, shape) in Shape::all().iter().enumerate() {
        assert_eq!(shape.index(), position);
    }
}

#[test]
fn catalog_holds_the_model_of_every_shape_in_order() {
    let models = catalog();
    assert_eq!(models.len(), 7);
    for shape in Shape::all() {
        let model = &models[shape.index()];
        assert_eq!(model.shape, shape);
        assert_eq!(model.color, TetriminoModel::new(shape).color);
        assert_eq!(model.states, TetriminoModel::new(shape).states);
    }
}
