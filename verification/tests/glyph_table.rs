use rxpipes::config::{build_custom_piece_set, split_graphemes, ConfigError};
use rxpipes::glyphs::{piece_glyph, slot_index};
use rxpipes::plane_2d::Direction;

fn dirs() -> [Direction; 4] {
    [
        Direction::Up,
        Direction::Down,
        Direction::Right,
        Direction::Left,
    ]
}

#[test]
fn slot_index_matches_the_table() {
    // rows: previous direction Up, Down, Right, Left; columns: current
    // direction in the same order
    let expected: [[u8; 4]; 4] = [[0, 0, 2, 3], [0, 0, 4, 5], [5, 3, 1, 1], [4, 2, 1, 1]];

    for (i, prev) in dirs().iter().enumerate() {
        for (j, dir) in dirs().iter().enumerate() {
            assert_eq!(slot_index(*prev, *dir), expected[i][j]);
        }
    }
}

#[test]
fn slot_index_in_range_and_repeatable() {
    for prev in dirs() {
        for dir in dirs() {
            let s1 = slot_index(prev, dir);
            let s2 = slot_index(prev, dir);
            assert!(s1 < 6);
            assert_eq!(s1, s2);
        }
    }
}

#[test]
fn predefined_sets_have_expected_glyphs() {
    assert_eq!(piece_glyph(0, 0), "|");
    assert_eq!(piece_glyph(0, 1), "-");
    assert_eq!(piece_glyph(0, 2), "+");
    assert_eq!(piece_glyph(3, 0), "│");
    assert_eq!(piece_glyph(3, 2), "┌");
    assert_eq!(piece_glyph(5, 5), "╝");
    assert_eq!(piece_glyph(6, 0), "┃");
    assert_eq!(piece_glyph(6, 5), "┛");
}

#[test]
fn split_graphemes_splits_characters() {
    let v = split_graphemes("abc");
    assert_eq!(v, vec!["a".to_string(), "b".to_string(), "c".to_string()]);
    let v = split_graphemes("");
    assert!(v.is_empty());
}

#[test]
fn split_graphemes_keeps_clusters_whole() {
    // a combining acute accent stays glued to its base character
    let v = split_graphemes("e\u{0301}x");
    assert_eq!(v.len(), 2);
    assert_eq!(v[0], "e\u{0301}");
    assert_eq!(v[1], "x");
}

#[test]
fn split_graphemes_partitions_the_string() {
    for s in ["", "abc", "e\u{0301}x", "│─┌┐└┘", "a b\tc"] {
        let joined: String = split_graphemes(s).concat();
        assert_eq!(joined, s);
    }
}

#[test]
fn custom_piece_set_of_six_is_accepted() {
    let v = build_custom_piece_set("│─┌┐└┘").unwrap();
    assert_eq!(v.len(), 6);
    assert_eq!(v[0], "│");
    assert_eq!(v[5], "┘");
}

#[test]
fn custom_piece_set_of_wrong_length_is_rejected() {
    assert_eq!(
        build_custom_piece_set("│─┌┐└"),
        Err(ConfigError::CustomPieceSetLength)
    );
    assert_eq!(
        build_custom_piece_set(""),
        Err(ConfigError::CustomPieceSetLength)
    );
    assert_eq!(
        build_custom_piece_set("1234567"),
        Err(ConfigError::CustomPieceSetLength)
    );
}
