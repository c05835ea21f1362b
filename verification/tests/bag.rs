use tetris::bag::Bag;
use tetris::tetrimino::Shape;

fn holds_each_shape_once(round: &[Shape]) -> bool {
    round.len() == 7 && Shape::all().iter().all(|shape| round.iter().filter(|s| *s == shape).count() == 1)
}

#[test]
fn every_round_of_seven_holds_each_shape_once() {
    let mut bag = Bag::new();
    for _ in 0..200 {
        let round: Vec<Shape> = (0..7).map(|_| bag.next()).collect();
        assert!(holds_each_shape_once(&round));
    }
}

#[test]
fn rounds_are_shuffled() {
    let mut bag = Bag::new();
    let mut differs = false;
    for _ in 0..200 {
        let round: Vec<Shape> = (0..7).map(|_| bag.next()).collect();
        differs = differs || round != Shape::all();
    }
    assert!(differs);
}

#[test]
fn rounds_are_shuffled_anew() {
    let mut bag = Bag::new();
    let first: Vec<Shape> = (0..7).map(|_| bag.next()).collect();
    let mut differs = false;
    for _ in 0..200 {
        let round: Vec<Shape> = (0..7).map(|_| bag.next()).collect();
        differs = differs || round != first;
    }
    assert!(differs);
}

#[test]
fn peek_shows_what_next_deals() {
    let mut bag = Bag::new();
    for _ in 0..30 {
        let shown = bag.peek();
        assert_eq!(bag.peek(), shown);
        assert_eq!(bag.next(), shown);
    }
}

#[test]
fn a_given_round_is_dealt_in_its_order() {
    let round = [Shape::T, Shape::O, Shape::J, Shape::I, Shape::Z, Shape::L, Shape::S];
    let mut bag = Bag::starting(round);
    let dealt: Vec<Shape> = (0..7).map(|_| bag.next()).collect();
    assert_eq!(dealt, round);
    let following: Vec<Shape> = (0..7).map(|_| bag.next()).collect();
    assert!(holds_each_shape_once(&following));
}
