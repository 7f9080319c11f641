use win_color::Color;
use win_color::ColorMapping;
use win_color::ColorMappingImpl;
use win_color::GlobalColor;
use win_color::GlobalColorImpl;
use win_color::GradientDirection;
use win_color::WinColorError;
use win_color::parse_color;
use win_color::parse_color_mapping;
use win_color::parse_color_string;
use win_color::parse_color_token;
use win_color::rgba::CHANNEL_SCALE;
use win_color::rgba::Rgba;

const S: i64 = CHANNEL_SCALE;

fn solid_of(r: Result<Color, WinColorError>) -> Rgba {
    match r.expect("expected a colour") {
        Color::Solid(s) => s.color,
        Color::Gradient(_) => panic!("expected a solid colour"),
    }
}

#[test]
fn hex_six_round_trip() {
    let c = solid_of(parse_color_string("#4a7bc8"));
    assert_eq!(c.to_rgba8(), (0x4a, 0x7b, 0xc8, 255));
    let c = solid_of(parse_color_string("#000001"));
    assert_eq!(c.to_rgba8(), (0, 0, 1, 255));
    let c = solid_of(parse_color_string("#FFFFFF"));
    assert_eq!(c.to_rgba8(), (255, 255, 255, 255));
}

#[test]
fn hex_nibble_duplication() {
    assert_eq!(solid_of(parse_color_string("#fff")), solid_of(parse_color_string("#ffffff")));
    assert_eq!(solid_of(parse_color_string("#0000")), solid_of(parse_color_string("#00000000")));
    assert_eq!(solid_of(parse_color_string("#abc")), solid_of(parse_color_string("#aabbcc")));
    assert_eq!(solid_of(parse_color_string("#1234")), solid_of(parse_color_string("#11223344")));
}

#[test]
fn hex_eight_alpha() {
    let c = solid_of(parse_color_string("#80402010"));
    assert_eq!(c.to_rgba8(), (0x80, 0x40, 0x20, 0x10));
}

#[test]
fn hex_bad_length_is_invalid_hex() {
    match parse_color_string("#12345") {
        Err(WinColorError::InvalidHex(t)) => assert_eq!(t, "12345"),
        other => panic!("expected InvalidHex, got {:?}", other),
    }
}

#[test]
fn rgb_bytes_exact() {
    let c = solid_of(parse_color_string("rgb(255, 0, 0)"));
    assert_eq!((c.r, c.g, c.b, c.a), (S, 0, 0, S));
}

#[test]
fn rgba_percentages_exact() {
    let c = solid_of(parse_color_string("rgba(0%, 50%, 100%, 50%)"));
    assert_eq!((c.r, c.g, c.b, c.a), (0, S / 2, S, S / 2));
}

#[test]
fn rgb_mixed_formats_is_invalid_rgb() {
    match parse_color_string("rgb(50%, 0, 0)") {
        Err(WinColorError::InvalidRgb(t)) => assert_eq!(t, "rgb(50%, 0, 0)"),
        other => panic!("expected InvalidRgb, got {:?}", other),
    }
}

#[test]
fn rgb_out_of_range_clamps() {
    let c = solid_of(parse_color_string("rgb(300, -5, 0)"));
    assert_eq!((c.r, c.g, c.b, c.a), (S, 0, 0, S));
}

#[test]
fn rgb_wrong_count_is_invalid_rgb() {
    assert!(matches!(parse_color_string("rgb(1, 2)"), Err(WinColorError::InvalidRgb(_))));
    assert!(matches!(parse_color_string("rgb(1, 2, 3, 4)"), Err(WinColorError::InvalidRgb(_))));
    assert!(matches!(parse_color_string("rgba(1, 2, 3, 4, 5)"), Err(WinColorError::InvalidRgb(_))));
}

#[test]
fn rgba_four_components() {
    let c = solid_of(parse_color_string("rgba(255, 255, 255, 0.5)"));
    assert_eq!((c.r, c.g, c.b, c.a), (S, S, S, S / 2));
}

#[test]
fn named_color_lookup() {
    let c = solid_of(parse_color_string("red"));
    assert_eq!((c.r, c.g, c.b, c.a), (S, 0, 0, S));
    let c = solid_of(parse_color_string("rebeccapurple"));
    assert_eq!(c.to_rgba8(), (102, 51, 153, 255));
}

#[test]
fn unknown_name_falls_back_to_black() {
    let c = parse_color_token("notacolor", None, None).expect("identifier fallback");
    assert_eq!((c.r, c.g, c.b, c.a), (0, 0, 0, S));
}

#[test]
fn unrecognized_token_is_invalid_unknown() {
    assert!(matches!(parse_color_token("123!", None, None), Err(WinColorError::InvalidUnknown)));
    // Anything opening with `#` is claimed by the hex matcher.
    assert!(matches!(parse_color_token("##", None, None), Err(WinColorError::InvalidHex(_))));
}

#[test]
fn empty_expression_has_no_valid_colors() {
    assert!(matches!(parse_color_string(""), Err(WinColorError::NoValidColors)));
    assert!(matches!(parse_color_string("!!!"), Err(WinColorError::NoValidColors)));
}

#[test]
fn accent_active_uses_platform_triple() {
    let c = solid_of(parse_color("accent", Some(true), Some((10, 20, 30))));
    assert_eq!((c.r, c.g, c.b, c.a), (10 * 10_000_000, 20 * 10_000_000, 30 * 10_000_000, S));
}

#[test]
fn accent_inactive_is_desaturated() {
    // avg = round((10+20+30)*10^7 / 3) = 2*10^8; each channel is
    // round(2*avg/3) + round(channel/10).
    let c = solid_of(parse_color("accent", Some(false), Some((10, 20, 30))));
    let part = 133_333_333;
    assert_eq!((c.r, c.g, c.b, c.a), (part + 10_000_000, part + 20_000_000, part + 30_000_000, S));
}

#[test]
fn accent_without_platform_value_fails() {
    assert!(matches!(parse_color("accent", Some(true), None), Err(WinColorError::InvalidAccent)));
}

#[test]
fn darken_of_red_by_half_is_exact() {
    let red = solid_of(parse_color_string("#ff0000"));
    let darker = win_color::hsl::darken(&red, 50 * 100_000);
    assert_eq!((darker.r, darker.g, darker.b, darker.a), (S / 2, 0, 0, S));
}

#[test]
fn darken_by_zero_is_identity() {
    for s in ["#ff8040", "#000000", "#ffffff", "rgb(1, 2, 3)", "rgba(9, 8, 7, 0.25)"] {
        let c = solid_of(parse_color_string(s));
        assert_eq!(win_color::hsl::darken(&c, 0), c);
        assert_eq!(win_color::hsl::lighten(&c, 0), c);
    }
}

#[test]
fn lighten_does_not_invert_darken() {
    let red = solid_of(parse_color_string("#ff0000"));
    let p = 50 * 100_000;
    let there_and_back = win_color::hsl::lighten(&win_color::hsl::darken(&red, p), p);
    assert_ne!(there_and_back, red);
    assert_eq!(
        (there_and_back.r, there_and_back.g, there_and_back.b),
        (1_912_500_000, 0, 0)
    );
}

#[test]
fn darken_token_parses() {
    let c = solid_of(parse_color_string("darken(#ff0000, 50%)"));
    assert_eq!((c.r, c.g, c.b, c.a), (S / 2, 0, 0, S));
}

#[test]
fn darken_token_defaults_to_ten_percent() {
    let explicit = solid_of(parse_color_string("darken(#ff0000, 10%)"));
    let implicit = solid_of(parse_color_string("darken(#ff0000)"));
    assert_eq!(explicit, implicit);
}

#[test]
fn nested_shade_tokens_parse() {
    let c = solid_of(parse_color_string("darken(lighten(#404040, 10%), 10%)"));
    assert!(c.r > 0 && c.r < S);
    assert_eq!(c.a, S);
}

#[test]
fn bad_shade_call_is_invalid_darken() {
    match parse_color_string("darken(##, 5%)") {
        Err(WinColorError::InvalidDarkenOrLighten(t, true)) => assert_eq!(t, "darken(##, 5%)"),
        other => panic!("expected InvalidDarkenOrLighten, got {:?}", other),
    }
    assert!(matches!(
        parse_color_string("lighten(##, 5%)"),
        Err(WinColorError::InvalidDarkenOrLighten(_, false))
    ));
}

#[test]
fn gradient_two_stops_to_bottom() {
    match parse_color_string("gradient(#ff0000, #0000ff, to bottom)").expect("gradient") {
        Color::Gradient(g) => {
            assert_eq!(g.gradient_stops.len(), 2);
            let s0 = g.gradient_stops[0];
            let s1 = g.gradient_stops[1];
            assert_eq!((s0.pos_num, s0.pos_den), (0, 1));
            assert_eq!((s1.pos_num, s1.pos_den), (1, 1));
            assert_eq!((s0.color.r, s0.color.g, s0.color.b, s0.color.a), (S, 0, 0, S));
            assert_eq!((s1.color.r, s1.color.g, s1.color.b, s1.color.a), (0, 0, S, S));
            assert_eq!(g.direction.start, [S / 2, 0]);
            assert_eq!(g.direction.end, [S / 2, S]);
        }
        other => panic!("expected a gradient, got {:?}", other),
    }
}

#[test]
fn gradient_three_stops_evenly_spread() {
    match parse_color_string("gradient(#ff0000, #00ff00, #0000ff)").expect("gradient") {
        Color::Gradient(g) => {
            assert_eq!(g.gradient_stops.len(), 3);
            for (k, stop) in g.gradient_stops.iter().enumerate() {
                assert_eq!(stop.pos_num, k);
                assert_eq!(stop.pos_den, 2);
            }
            // No direction token: the default is "to right".
            assert_eq!(g.direction.start, [0, S / 2]);
            assert_eq!(g.direction.end, [S, S / 2]);
        }
        other => panic!("expected a gradient, got {:?}", other),
    }
}

#[test]
fn gradient_drops_invalid_stops_silently() {
    match parse_color_string("gradient(#ff0000, #12345, #0000ff)").expect("gradient") {
        Color::Gradient(g) => {
            assert_eq!(g.gradient_stops.len(), 2);
            assert_eq!(g.gradient_stops[0].color.r, S);
            assert_eq!(g.gradient_stops[1].color.b, S);
        }
        other => panic!("expected a gradient, got {:?}", other),
    }
}

#[test]
fn gradient_single_survivor_degenerates_to_solid() {
    let c = solid_of(parse_color_string("gradient(#ff0000, #12345)"));
    assert_eq!((c.r, c.g, c.b), (S, 0, 0));
}

#[test]
fn gradient_wrapper_around_one_color_is_solid() {
    let c = solid_of(parse_color_string("gradient(#ff0000)"));
    assert_eq!((c.r, c.g, c.b, c.a), (S, 0, 0, S));
}

#[test]
fn mapping_empty_is_transparent_black() {
    let m = ColorMapping::new(&[], GradientDirection::Direction("to right".to_string()));
    let c = solid_of(parse_color_mapping(m));
    assert_eq!((c.r, c.g, c.b, c.a), (0, 0, 0, 0));
}

#[test]
fn mapping_single_color_is_solid() {
    let m = ColorMapping::new(&["#ff0000"], GradientDirection::Direction("to right".to_string()));
    let c = solid_of(parse_color_mapping(m));
    assert_eq!((c.r, c.g, c.b, c.a), (S, 0, 0, S));
}

#[test]
fn mapping_two_colors_is_gradient() {
    let m = ColorMapping::new(
        &["#ff0000", "#0000ff"],
        GradientDirection::Direction("to bottom".to_string()),
    );
    match parse_color_mapping(m).expect("gradient") {
        Color::Gradient(g) => {
            assert_eq!(g.gradient_stops.len(), 2);
            assert_eq!(g.direction.start, [S / 2, 0]);
            assert_eq!(g.direction.end, [S / 2, S]);
        }
        other => panic!("expected a gradient, got {:?}", other),
    }
}

#[test]
fn mapping_bad_direction_fails() {
    let m = ColorMapping::new(
        &["#ff0000", "#0000ff"],
        GradientDirection::Direction("bogus".to_string()),
    );
    match parse_color_mapping(m) {
        Err(WinColorError::InvalidGradientCoordinates(t)) => assert_eq!(t, "bogus"),
        other => panic!("expected InvalidGradientCoordinates, got {:?}", other),
    }
}

#[test]
fn global_color_default_is_black() {
    let g = GlobalColor::default();
    let c = solid_of(g.to_color(None, None));
    assert_eq!((c.r, c.g, c.b, c.a), (0, 0, 0, S));
}

#[test]
fn global_color_from_string_and_mapping() {
    let g = GlobalColor::String("#00ff00".to_string());
    let c = solid_of(Color::from_global_color(&g, None, None));
    assert_eq!((c.r, c.g, c.b), (0, S, 0));
    let m = ColorMapping::new(&["#123456"], GradientDirection::Direction("to top".to_string()));
    let c = solid_of(Color::from_global_color(&GlobalColor::Mapping(m), None, None));
    assert_eq!(c.to_rgba8(), (0x12, 0x34, 0x56, 255));
}

#[test]
fn error_messages_carry_the_offending_text() {
    let e = parse_color_string("#12345").unwrap_err();
    assert_eq!(e.message(), "invalid hex format: 12345");
    let e = parse_color_string("rgb(50%, 0, 0)").unwrap_err();
    assert_eq!(e.message(), "invalid rgb format: rgb(50%, 0, 0)");
}
