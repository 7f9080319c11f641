use win_color::GradientCoordinates;
use win_color::GradientDirection;
use win_color::WinColorError;
use win_color::parse_gradient_direction;
use win_color::resolve_direction;
use win_color::rgba::CHANNEL_SCALE;
use win_color::strip_string;

const S: i64 = CHANNEL_SCALE;

fn resolved(s: &str) -> GradientCoordinates {
    resolve_direction(s).expect("direction should resolve")
}

#[test]
fn to_right_and_to_left_are_reversed_pairs() {
    let right = resolved("to right");
    assert_eq!(right.start, [0, S / 2]);
    assert_eq!(right.end, [S, S / 2]);
    let left = resolved("to left");
    assert_eq!(left.start, right.end);
    assert_eq!(left.end, right.start);
}

#[test]
fn keyword_table_is_antipodal() {
    let cases = [
        ("to top", [S / 2, S], [S / 2, 0]),
        ("to bottom", [S / 2, 0], [S / 2, S]),
        ("to top right", [0, S], [S, 0]),
        ("to top left", [S, S], [0, 0]),
        ("to bottom right", [0, 0], [S, S]),
        ("to bottom left", [S, 0], [0, S]),
    ];
    for (phrase, start, end) in cases {
        let c = resolved(phrase);
        assert_eq!(c.start, start, "start of {}", phrase);
        assert_eq!(c.end, end, "end of {}", phrase);
    }
}

#[test]
fn ninety_degrees_hits_the_vertical_degeneracy() {
    // The slope saturates instead of dividing by a vanishing cosine; the
    // line runs vertically through the square's centre.
    let c = resolved("90deg");
    assert_eq!(c.start[1], S);
    assert_eq!(c.end[1], 0);
    assert!((c.start[0] - S / 2).abs() <= 10);
    assert!((c.end[0] - S / 2).abs() <= 10);
    let c = resolved("270deg");
    assert_eq!(c.start[1], 0);
    assert_eq!(c.end[1], S);
}

#[test]
fn zero_degrees_is_horizontal_through_the_centre() {
    let c = resolved("0deg");
    assert_eq!(c.start, [0, S / 2]);
    assert_eq!(c.end, [S, S / 2]);
}

#[test]
fn forty_five_degrees_leaves_through_the_corners() {
    let c = resolved("45deg");
    // tan(-45 degrees) is -1: the line y = -x + 1 meets the square at
    // (0, 1) and (1, 0), up to fixed-point rounding.
    assert!((c.start[0] - 0).abs() <= 10);
    assert!((c.start[1] - S).abs() <= 10);
    assert!((c.end[0] - S).abs() <= 10);
    assert!((c.end[1] - 0).abs() <= 10);
}

#[test]
fn angle_units_agree() {
    let deg = resolved("180deg");
    let grad = resolved("200grad");
    let turn = resolved("0.5turn");
    let bare = resolved("180");
    assert_eq!(deg.start, grad.start);
    assert_eq!(deg.end, grad.end);
    assert_eq!(deg.start, turn.start);
    assert_eq!(deg.end, turn.end);
    assert_eq!(deg.start, bare.start);
    assert_eq!(deg.end, bare.end);
}

#[test]
fn radians_are_close_to_degrees() {
    // pi/4 radians is 45 degrees. The number parser keeps five decimal
    // places, so the angle itself is off by up to half a thousandth of a
    // degree; allow the corresponding tolerance on the unit square.
    let rad = resolved("0.78540rad");
    let deg = resolved("45deg");
    assert!((rad.start[0] - deg.start[0]).abs() <= 150_000);
    assert!((rad.start[1] - deg.start[1]).abs() <= 150_000);
    assert!((rad.end[0] - deg.end[0]).abs() <= 150_000);
    assert!((rad.end[1] - deg.end[1]).abs() <= 150_000);
}

#[test]
fn empty_and_bogus_directions_fail() {
    assert!(matches!(
        resolve_direction(""),
        Err(WinColorError::InvalidGradientCoordinates(_))
    ));
    match resolve_direction("bogus") {
        Err(WinColorError::InvalidGradientCoordinates(t)) => assert_eq!(t, "bogus"),
        other => panic!("expected InvalidGradientCoordinates, got {:?}", other),
    }
}

#[test]
fn gradient_direction_enum_resolves() {
    let c = parse_gradient_direction(&GradientDirection::Direction("to right".to_string()))
        .expect("keyword");
    assert_eq!(c.start, [0, S / 2]);
    let fixed = GradientCoordinates { start: [1, 2], end: [3, 4] };
    let c = parse_gradient_direction(&GradientDirection::Coordinates(fixed)).expect("coords");
    assert_eq!(c, fixed);
    assert!(matches!(
        parse_gradient_direction(&GradientDirection::Direction("nowhere".to_string())),
        Err(WinColorError::InvalidGradientCoordinates(_))
    ));
}

#[test]
fn strip_string_removes_first_prefix_and_suffix() {
    assert_eq!(strip_string("gradient(abc)".to_string(), &["gradient("], ')'), "abc");
    assert_eq!(strip_string("abc".to_string(), &["gradient("], ')'), "abc");
    assert_eq!(
        strip_string("foo(bar".to_string(), &["quux(", "foo("], ')'),
        "bar"
    );
    assert_eq!(strip_string("x)".to_string(), &[], ')'), "x");
}
