use hive_engine::direction::Direction;
use hive_engine::game_error::GameError;
use hive_engine::notation::{prefix_to_direction, suffix_to_direction};
use hive_engine::piece::{Bug, Color, Piece};
use hive_engine::position::Position;
use hive_engine::registry::Registry;

fn parsing_error(found: &str, typ: &str) -> GameError {
    GameError::ParsingError { found: found.to_string(), typ: typ.to_string() }
}

#[test]
fn origin_token_ignores_registry() {
    let empty = Registry::new();
    assert_eq!(Position::from_string(".", &empty), Ok(Position::new(0, 0)));

    let mut reg = Registry::new();
    reg.place(Piece::new(Color::White, Bug::Ant, Some(1)), Position::new(5, 7));
    assert_eq!(Position::from_string(".", &reg), Ok(Position::new(0, 0)));
}

#[test]
fn exact_anchor_without_offset() {
    let mut reg = Registry::new();
    reg.place(Piece::new(Color::White, Bug::Ant, Some(1)), Position::new(2, 3));
    assert_eq!(Position::from_string("wA1", &reg), Ok(Position::new(2, 3)));
}

#[test]
fn prefix_offset_on_even_row() {
    let mut reg = Registry::new();
    reg.place(Piece::new(Color::White, Bug::Ant, Some(1)), Position::new(0, 0));
    assert_eq!(Position::from_string("-wA1", &reg), Ok(Position::new(-1, 0)));
}

#[test]
fn suffix_offset_on_odd_row() {
    let mut reg = Registry::new();
    reg.place(Piece::new(Color::Black, Bug::Grasshopper, Some(2)), Position::new(1, 1));
    assert_eq!(Position::from_string("bG2/", &reg), Ok(Position::new(2, 0)));
}

#[test]
fn all_prefix_symbols() {
    let mut reg = Registry::new();
    reg.place(Piece::new(Color::White, Bug::Queen, None), Position::new(0, 0));
    assert_eq!(Position::from_string("\\wQ", &reg), Ok(Position::new(-1, -1)));
    assert_eq!(Position::from_string("-wQ", &reg), Ok(Position::new(-1, 0)));
    assert_eq!(Position::from_string("/wQ", &reg), Ok(Position::new(-1, 1)));
}

#[test]
fn all_suffix_symbols() {
    let mut reg = Registry::new();
    reg.place(Piece::new(Color::White, Bug::Queen, None), Position::new(0, 0));
    assert_eq!(Position::from_string("wQ/", &reg), Ok(Position::new(0, -1)));
    assert_eq!(Position::from_string("wQ-", &reg), Ok(Position::new(1, 0)));
    assert_eq!(Position::from_string("wQ\\", &reg), Ok(Position::new(0, 1)));
}

#[test]
fn prefix_and_suffix_compose() {
    // Both sides present: the prefix step runs first, the suffix step is
    // applied to its result.
    let mut reg = Registry::new();
    reg.place(Piece::new(Color::White, Bug::Ant, Some(1)), Position::new(0, 0));
    // Prefix '/' steps SW to (-1, 1); row 1 is odd, so suffix '\' steps SE
    // to (0, 2).
    assert_eq!(Position::from_string("/wA1\\", &reg), Ok(Position::new(0, 2)));
}

#[test]
fn unresolved_anchor_echoes_input() {
    let empty = Registry::new();
    assert_eq!(Position::from_string("wQ", &empty), Err(parsing_error("wQ", "position")));
}

#[test]
fn grammar_mismatch_echoes_input() {
    let mut reg = Registry::new();
    reg.place(Piece::new(Color::White, Bug::Queen, None), Position::new(0, 0));
    assert_eq!(Position::from_string("", &reg), Err(parsing_error("", "position")));
    assert_eq!(Position::from_string("xyz", &reg), Err(parsing_error("xyz", "position")));
    assert_eq!(Position::from_string("w", &reg), Err(parsing_error("w", "position")));
    assert_eq!(Position::from_string("-", &reg), Err(parsing_error("-", "position")));
}

#[test]
fn leftmost_code_wins_and_surroundings_are_ignored() {
    let mut reg = Registry::new();
    reg.place(Piece::new(Color::White, Bug::Ant, Some(1)), Position::new(2, 3));
    // The token is searched inside the string: text around the match is
    // ignored, and a non-symbol character before the code carries no offset.
    assert_eq!(Position::from_string("xxwA1yy", &reg), Ok(Position::new(2, 3)));
    assert_eq!(Position::from_string("wA1extra", &reg), Ok(Position::new(2, 3)));
}

#[test]
fn symbol_after_digit_is_the_suffix() {
    let mut reg = Registry::new();
    reg.place(Piece::new(Color::White, Bug::Ant, Some(1)), Position::new(0, 0));
    // The digit belongs to the code; the symbol after it is the suffix.
    assert_eq!(Position::from_string("wA1-", &reg), Ok(Position::new(1, 0)));
}

#[test]
fn anchor_piece_is_matched_with_its_ordinal() {
    let mut reg = Registry::new();
    reg.place(Piece::new(Color::White, Bug::Ant, Some(1)), Position::new(2, 3));
    // "wA" names the piece without an ordinal, which is a different piece.
    assert_eq!(Position::from_string("wA", &reg), Err(parsing_error("wA", "position")));
}

#[test]
fn leading_dot_short_circuits() {
    let mut reg = Registry::new();
    reg.place(Piece::new(Color::White, Bug::Ant, Some(1)), Position::new(2, 3));
    // Any string that starts with '.' resolves to the origin.
    assert_eq!(Position::from_string(".wA1", &reg), Ok(Position::new(0, 0)));
}

#[test]
fn prefix_symbol_directions() {
    assert_eq!(prefix_to_direction('\\'), Ok(Direction::NW));
    assert_eq!(prefix_to_direction('-'), Ok(Direction::W));
    assert_eq!(prefix_to_direction('/'), Ok(Direction::SW));
}

#[test]
fn suffix_symbol_directions() {
    assert_eq!(suffix_to_direction('/'), Ok(Direction::NE));
    assert_eq!(suffix_to_direction('-'), Ok(Direction::E));
    assert_eq!(suffix_to_direction('\\'), Ok(Direction::SE));
}

#[test]
fn invalid_symbol_is_named() {
    assert_eq!(
        prefix_to_direction('x'),
        Err(GameError::InvalidDirection { direction: "x".to_string() })
    );
    assert_eq!(
        suffix_to_direction('?'),
        Err(GameError::InvalidDirection { direction: "?".to_string() })
    );
}

#[test]
fn piece_codes_parse() {
    assert_eq!(
        Piece::from_code("wA1"),
        Ok(Piece::new(Color::White, Bug::Ant, Some(1)))
    );
    assert_eq!(Piece::from_code("bQ"), Ok(Piece::new(Color::Black, Bug::Queen, None)));
    assert_eq!(
        Piece::from_code("bM3"),
        Ok(Piece::new(Color::Black, Bug::Mosquito, Some(3)))
    );
}

#[test]
fn bad_piece_codes_are_rejected() {
    assert_eq!(Piece::from_code("wZ"), Err(parsing_error("wZ", "piece")));
    assert_eq!(Piece::from_code("xA1"), Err(parsing_error("xA1", "piece")));
    assert_eq!(Piece::from_code("wA12"), Err(parsing_error("wA12", "piece")));
    assert_eq!(Piece::from_code(""), Err(parsing_error("", "piece")));
}

#[test]
fn offending_text_is_exposed() {
    let e = GameError::InvalidDirection { direction: "x".to_string() };
    assert_eq!(e.offending_text(), "x");
    let e = parsing_error("wQ", "position");
    assert_eq!(e.offending_text(), "wQ");
}
