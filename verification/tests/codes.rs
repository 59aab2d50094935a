use theme::Color;
use theme::Definitions;
use theme::Style;
use theme::UiStyles;

fn style_of(value: &str) -> Style {
    let mut result = UiStyles::default();
    let defs = Definitions { ls: Some(format!("fi={value}")), exa: None };
    let (_, _) = defs.parse_color_vars(&mut result);
    result.filekinds.normal
}

#[test]
fn attribute_codes() {
    assert_eq!(style_of("1"), Style::default().bold());
    assert_eq!(style_of("2"), Style::default().dimmed());
    assert_eq!(style_of("3"), Style::default().italic());
    assert_eq!(style_of("4"), Style::default().underline());
    assert_eq!(style_of("5"), Style::default().blink());
    assert_eq!(style_of("7"), Style::default().reverse());
    assert_eq!(style_of("8"), Style::default().hidden());
    assert_eq!(style_of("9"), Style::default().strikethrough());
}

#[test]
fn basic_foreground_and_background() {
    assert_eq!(style_of("31"), Color::Red.normal());
    assert_eq!(style_of("37"), Color::White.normal());
    assert_eq!(style_of("44"), Style::default().on(Color::Blue));
    assert_eq!(style_of("1;32;4"), Color::Green.bold().underline());
}

#[test]
fn bright_blocks_use_upper_fixed_palette() {
    assert_eq!(style_of("91"), Color::Fixed(9).normal());
    assert_eq!(style_of("107"), Style::default().on(Color::Fixed(15)));
}

#[test]
fn fixed_256_colours() {
    assert_eq!(style_of("38;5;100"), Color::Fixed(100).normal());
    assert_eq!(style_of("48;5;200"), Style::default().on(Color::Fixed(200)));
}

#[test]
fn true_colour() {
    assert_eq!(style_of("38;2;10;20;30"), Color::Rgb(10, 20, 30).normal());
    assert_eq!(style_of("48;2;0;0;255"), Style::default().on(Color::Rgb(0, 0, 255)));
}

#[test]
fn leading_zeroes_are_numeric() {
    assert_eq!(style_of("01"), Style::default().bold());
    assert_eq!(style_of("031"), Color::Red.normal());
}

#[test]
fn unrecognized_codes_are_skipped() {
    assert_eq!(style_of(""), Style::default());
    assert_eq!(style_of("6"), Style::default());
    assert_eq!(style_of("99"), Style::default());
    assert_eq!(style_of("zz"), Style::default());
    assert_eq!(style_of("zz;1"), Style::default().bold());
}

#[test]
fn malformed_extended_form_skips_the_introducer() {
    // 38 with no usable parameters: only the introducer is dropped, the
    // following tokens are read on their own.
    assert_eq!(style_of("38;9"), Style::default().strikethrough());
    // a palette index above 255 does not fit the fixed form: the introducer
    // is dropped and the parameters are read on their own
    assert_eq!(style_of("38;5;256"), Style::default().blink());
    // the fixed form wins over reading its parameters as simple codes
    assert_eq!(style_of("38;5;4"), Color::Fixed(4).normal());
}

#[test]
fn value_after_extended_form_still_applies() {
    assert_eq!(style_of("38;5;100;1"), Color::Fixed(100).bold());
}

#[test]
fn empty_value_is_plain() {
    let mut result = UiStyles::default();
    let defs = Definitions { ls: Some(String::from("fi=")), exa: None };
    let (_, _) = defs.parse_color_vars(&mut result);
    assert_eq!(result.filekinds.normal, Style::default());
}
