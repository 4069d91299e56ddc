use hive_engine::piece::{Bug, Color, Piece};
use hive_engine::position::Position;
use hive_engine::registry::Registry;

#[test]
fn lookup_of_unplaced_piece_is_absent() {
    let reg = Registry::new();
    assert_eq!(reg.position(&Piece::new(Color::White, Bug::Queen, None)), None);
    assert_eq!(reg.len(), 0);
}

#[test]
fn placed_piece_is_found() {
    let mut reg = Registry::new();
    let piece = Piece::new(Color::White, Bug::Spider, Some(2));
    reg.place(piece, Position::new(4, -1));
    assert_eq!(reg.position(&piece), Some(Position::new(4, -1)));
    assert_eq!(reg.len(), 1);
}

#[test]
fn placing_again_moves_the_piece() {
    let mut reg = Registry::new();
    let piece = Piece::new(Color::Black, Bug::Beetle, Some(1));
    reg.place(piece, Position::new(0, 0));
    reg.place(piece, Position::new(1, 1));
    assert_eq!(reg.position(&piece), Some(Position::new(1, 1)));
    assert_eq!(reg.len(), 1);
}

#[test]
fn distinct_pieces_keep_distinct_places() {
    let mut reg = Registry::new();
    let a = Piece::new(Color::White, Bug::Ant, Some(1));
    let b = Piece::new(Color::White, Bug::Ant, Some(2));
    let c = Piece::new(Color::Black, Bug::Ant, Some(1));
    reg.place(a, Position::new(0, 0));
    reg.place(b, Position::new(1, 0));
    reg.place(c, Position::new(2, 0));
    assert_eq!(reg.len(), 3);
    assert_eq!(reg.position(&a), Some(Position::new(0, 0)));
    assert_eq!(reg.position(&b), Some(Position::new(1, 0)));
    assert_eq!(reg.position(&c), Some(Position::new(2, 0)));
}

#[test]
fn ordinal_distinguishes_pieces() {
    let mut reg = Registry::new();
    let with = Piece::new(Color::White, Bug::Queen, Some(1));
    let without = Piece::new(Color::White, Bug::Queen, None);
    reg.place(with, Position::new(3, 3));
    assert_eq!(reg.position(&without), None);
    assert_eq!(reg.position(&with), Some(Position::new(3, 3)));
}
