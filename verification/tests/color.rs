use status_line::color::{classify, colorize, colorize_range, Color, Colorizer};
use status_line::status::Markup;

#[test]
fn test_colorize() {
    println!("{}", colorize("test", 0.5, |_| { Color::Yellow }))
}

#[test]
fn test_colorize_range() {
    let s = "test";
    let range = (0.1, 0.3);

    println!("{:?}", colorize_range(s, 0.01, range));
    println!("{:?}", colorize_range(s, 0.1, range));
    println!("{:?}", colorize_range(s, 0.2, range));
    println!("{:?}", colorize_range(s, 0.3, range));
    println!("{:?}", colorize_range(s, 0.4, range));
}

#[test]
fn classify_bands_on_whole_numbers() {
    let range = (10i64, 30i64);
    assert_eq!(classify(&i64::MIN, &range), Color::Red);
    assert_eq!(classify(&9, &range), Color::Red);
    assert_eq!(classify(&10, &range), Color::Yellow);
    assert_eq!(classify(&29, &range), Color::Yellow);
    assert_eq!(classify(&30, &range), Color::Clear);
    assert_eq!(classify(&i64::MAX, &range), Color::Clear);
}

#[test]
fn colorize_range_wraps_the_text() {
    let range = (0.1, 0.3);
    assert_eq!(
        colorize_range("test", 0.01, range),
        "<span foreground=\"#FB5245\">test</span>"
    );
    assert_eq!(
        colorize_range("test", 0.1, range),
        "<span foreground=\"#FAC149\">test</span>"
    );
    assert_eq!(
        colorize_range("test", 0.2, range),
        "<span foreground=\"#FAC149\">test</span>"
    );
    assert_eq!(
        colorize_range("test", 0.3, range),
        "<span foreground=\"#EBDBB2\">test</span>"
    );
    assert_eq!(
        colorize_range("test", 0.4, range),
        "<span foreground=\"#EBDBB2\">test</span>"
    );
    assert_eq!(
        colorize_range("", f64::NAN, range),
        "<span foreground=\"#EBDBB2\"></span>"
    );
}

#[test]
fn colorize_uses_the_level_of_the_function() {
    assert_eq!(
        colorize("test", 0.5, |_| Color::Yellow),
        "<span foreground=\"#FAC149\">test</span>"
    );
    assert_eq!(
        colorize("a<b", 7u8, |x| if x > 5 { Color::Red } else { Color::Clear }),
        "<span foreground=\"#FB5245\">a<b</span>"
    );
}

#[test]
fn the_two_colorizers() {
    assert_eq!(
        Colorizer::Inline.render("x", Color::Yellow),
        "<span foreground=\"#FAC149\">x</span>"
    );
    assert_eq!(Colorizer::Field.render("x", Color::Yellow), "x");
    assert_eq!(Colorizer::Inline.color(Color::Red), None);
    assert_eq!(Colorizer::Field.color(Color::Red).as_deref(), Some("#FB5245"));
    assert_eq!(Colorizer::Field.color(Color::Yellow).as_deref(), Some("#FAC149"));
    assert_eq!(Colorizer::Field.color(Color::Clear), None);
    assert_eq!(Colorizer::Inline.markup(), Markup::Pango);
    assert_eq!(Colorizer::Field.markup(), Markup::Plain);
    assert_eq!(Color::Clear.code(), "#EBDBB2");
}
