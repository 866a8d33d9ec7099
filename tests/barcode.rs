use biblioteca::barcode::{generate_pattern, pattern_of_chars, BarSegment};
use biblioteca::page::Point;

fn bar(x: u16, y0: u16, y1: u16) -> BarSegment {
    BarSegment { start: Point { x, y: y0 }, end: Point { x, y: y1 } }
}

#[test]
fn pattern_is_deterministic() {
    let origin = Point { x: 5, y: 22 };
    let a = generate_pattern("A1", origin, 10, 3);
    let b = generate_pattern("A1", origin, 10, 3);
    assert_eq!(a, b);
    // 'A' is 65 (odd), '1' is 49 (odd): no bar at all.
    assert!(a.is_empty());
}

#[test]
fn changed_character_only_affects_later_bars() {
    let origin = Point { x: 0, y: 0 };
    let a = generate_pattern("BDFH", origin, 10, 3);
    let b = generate_pattern("BDGH", origin, 10, 3);
    assert_eq!(a, vec![bar(0, 0, 3), bar(1, 0, 3), bar(2, 0, 3), bar(3, 0, 3)]);
    assert_eq!(b, vec![bar(0, 0, 3), bar(1, 0, 3), bar(3, 0, 3)]);
    assert_eq!(a[..2], b[..2]);
}

#[test]
fn zero_width_gives_no_bars() {
    let origin = Point { x: 3, y: 4 };
    assert!(generate_pattern("BBBB", origin, 0, 7).is_empty());
    assert!(generate_pattern("x", origin, 0, 0).is_empty());
    assert!(generate_pattern("A1", origin, 0, 3).is_empty());
}

#[test]
fn even_code_points_make_bars() {
    let origin = Point { x: 10, y: 20 };
    let p = generate_pattern("AB", origin, 10, 3);
    assert_eq!(p, vec![bar(11, 20, 23)]);
}

#[test]
fn width_cuts_the_pattern() {
    let origin = Point { x: 0, y: 0 };
    assert_eq!(generate_pattern("BBBB", origin, 2, 5), vec![bar(0, 0, 5), bar(1, 0, 5)]);
    assert_eq!(generate_pattern("ABAB", origin, 3, 5), vec![bar(1, 0, 5)]);
}

#[test]
fn empty_input_gives_no_bars() {
    assert!(generate_pattern("", Point { x: 0, y: 0 }, 40, 3).is_empty());
}

#[test]
fn non_ascii_characters_use_their_code_point() {
    // 'ó' is U+00F3 (odd), 'ñ' is U+00F1 (odd), 'Ā' is U+0100 (even).
    let p = generate_pattern("óñĀ", Point { x: 1, y: 1 }, 10, 2);
    assert_eq!(p, vec![bar(3, 1, 3)]);
}

#[test]
fn chars_and_str_agree() {
    let chars: Vec<char> = "12345".chars().collect();
    let origin = Point { x: 2, y: 6 };
    assert_eq!(pattern_of_chars(&chars, origin, 50, 3), generate_pattern("12345", origin, 50, 3));
    assert_eq!(generate_pattern("12345", origin, 50, 3), vec![bar(3, 6, 9), bar(5, 6, 9)]);
}
