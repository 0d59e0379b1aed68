use gradient::{paint, Colour, Gradient, GradientBuilder, GradientError, StyleOptions};

fn colour_on() {
    colored::control::set_override(true);
}

#[test]
fn test_gradient() -> Result<(), GradientError> {
    colour_on();
    let g = GradientBuilder::new()
        .text("Hello, World!".to_string())
        .start_colour(Colour::from_hex(0x24f26f)?)
        .end_colour(Colour::from_hex(0x8424f2)?)
        .build()?;
    let s = g.to_string();

    assert_eq!(s.len(), 299);
    Ok(())
}

#[test]
fn from_hex_reads_six_digits() {
    let c = Colour::from_hex(0x24f26f).unwrap();
    assert_eq!((c.r(), c.g(), c.b()), (0x24, 0xf2, 0x6f));
    let m = Colour::from_hex(0xFFFFFF).unwrap();
    assert_eq!((m.r(), m.g(), m.b()), (255, 255, 255));
}

#[test]
fn from_hex_reads_three_digits_below_fff() {
    let c = Colour::from_hex(0xABC).unwrap();
    assert_eq!((c.r(), c.g(), c.b()), (0xA, 0xB, 0xC));
    let z = Colour::from_hex(0).unwrap();
    assert_eq!(z, Colour::new(0, 0, 0));
    let edge = Colour::from_hex(0xFFF).unwrap();
    assert_eq!((edge.r(), edge.g(), edge.b()), (0x00, 0x0F, 0xFF));
}

#[test]
fn from_hex_rejects_values_above_ffffff() {
    assert_eq!(Colour::from_hex(0x1000000), Err(GradientError::InvalidHex));
    assert_eq!(Colour::from_hex(u32::MAX), Err(GradientError::InvalidHex));
}

#[test]
fn scale_by_one_and_by_zero() {
    let c = Colour::new(10, 200, 255);
    assert_eq!(c.scale(7, 7), c);
    assert_eq!(c.scale(0, 7), Colour::new(0, 0, 0));
    assert_eq!(c.scale(1, 2), Colour::new(5, 100, 127));
}

#[test]
fn scale_clamps_above_one() {
    assert_eq!(Colour::new(200, 100, 1).scale(3, 2), Colour::new(255, 150, 1));
}

#[test]
fn add_saturates() {
    let a = Colour::new(200, 100, 0);
    let b = Colour::new(100, 100, 5);
    assert_eq!(a.add(b), Colour::new(255, 200, 5));
}

#[test]
fn default_colour_is_black() {
    assert_eq!(Colour::default(), Colour::new(0, 0, 0));
}

#[test]
fn colours_run_from_end_towards_start() {
    let g = Gradient::new(Colour::new(90, 0, 30), Colour::new(0, 90, 60), "abc");
    assert_eq!(
        g.get_gradient(),
        vec![Colour::new(0, 90, 60), Colour::new(30, 60, 50), Colour::new(60, 30, 40)]
    );
}

#[test]
fn one_segment_per_character_in_order() {
    colour_on();
    let g = Gradient::new(Colour::new(90, 0, 30), Colour::new(0, 90, 60), "abc");
    assert_eq!(
        g.format(),
        "\x1b[38;2;0;90;60ma\x1b[0m\x1b[38;2;30;60;50mb\x1b[0m\x1b[38;2;60;30;40mc\x1b[0m"
    );
}

#[test]
fn single_character_takes_end_colour() {
    colour_on();
    let g = Gradient::new(Colour::new(1, 2, 3), Colour::new(200, 100, 50), "x");
    assert_eq!(g.get_gradient(), vec![Colour::new(200, 100, 50)]);
    assert_eq!(g.format(), "\x1b[38;2;200;100;50mx\x1b[0m");
}

#[test]
fn empty_text_renders_empty() {
    colour_on();
    let g = Gradient::new(Colour::new(1, 2, 3), Colour::new(4, 5, 6), "");
    assert!(g.get_gradient().is_empty());
    assert_eq!(g.format(), "");
}

#[test]
fn build_without_colours_fails() {
    assert_eq!(
        GradientBuilder::new().build().unwrap_err(),
        GradientError::UnconfiguredGradient
    );
    assert_eq!(
        GradientBuilder::default().text("abc".to_string()).build().unwrap_err(),
        GradientError::UnconfiguredGradient
    );
}

#[test]
fn build_with_one_colour_fails() {
    let start_only = GradientBuilder::new().start_colour(Colour::new(1, 1, 1)).build();
    assert_eq!(start_only.unwrap_err(), GradientError::UnconfiguredGradient);
    let end_only = GradientBuilder::new().end_colour(Colour::new(1, 1, 1)).build();
    assert_eq!(end_only.unwrap_err(), GradientError::UnconfiguredGradient);
}

#[test]
fn style_flags_map_to_options() {
    assert_eq!(StyleOptions::from_flags(true, true), StyleOptions::BoldItalic);
    assert_eq!(StyleOptions::from_flags(true, false), StyleOptions::Bold);
    assert_eq!(StyleOptions::from_flags(false, true), StyleOptions::Italic);
    assert_eq!(StyleOptions::from_flags(false, false), StyleOptions::Default);
}

#[test]
fn bold_italic_gradient_renders_both_codes() {
    colour_on();
    let g = GradientBuilder::new()
        .text("a".to_string())
        .start_colour(Colour::new(9, 9, 9))
        .end_colour(Colour::new(1, 2, 3))
        .italic()
        .bold()
        .build()
        .unwrap();
    assert_eq!(g.format(), "\x1b[1;3;38;2;1;2;3ma\x1b[0m");
}

#[test]
fn bold_and_italic_alone() {
    colour_on();
    let c = Colour::new(4, 5, 6);
    assert_eq!(paint('q', c, StyleOptions::Bold), "\x1b[1;38;2;4;5;6mq\x1b[0m");
    assert_eq!(paint('q', c, StyleOptions::Italic), "\x1b[3;38;2;4;5;6mq\x1b[0m");
    assert_eq!(paint('q', c, StyleOptions::Default), "\x1b[38;2;4;5;6mq\x1b[0m");
}

#[test]
fn plain_clears_bold_and_italic() {
    colour_on();
    let g = GradientBuilder::new()
        .bold()
        .italic()
        .plain()
        .text("z".to_string())
        .start_colour(Colour::new(9, 9, 9))
        .end_colour(Colour::new(7, 8, 9))
        .build()
        .unwrap();
    assert_eq!(g.to_string(), "\x1b[38;2;7;8;9mz\x1b[0m");
}
