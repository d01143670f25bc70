use status_line::color::{Color, Colorizer};
use status_line::json::{encode_item, encode_tick, quote};
use status_line::status::{Markup, Status, StatusData};

fn item(name: &str, color: Option<&str>, markup: Markup, text: &str) -> StatusData {
    StatusData {
        name: name.to_string(),
        color: color.map(|c| c.to_string()),
        markup,
        full_text: text.to_string(),
    }
}

#[test]
fn test_serializing() {
    let sd = StatusData {
        name: "test".to_string(),
        color: None,
        markup: Markup::Pango,
        full_text: "test text".to_string(),
    };

    println!("{:?}", encode_item(&sd).unwrap());
}

#[test]
fn item_without_color_omits_the_key() {
    let sd = item("test", None, Markup::Pango, "test text");
    assert_eq!(
        encode_item(&sd).unwrap(),
        "{\"name\":\"test\",\"markup\":\"pango\",\"full_text\":\"test text\"}"
    );
    let parsed: serde_json::Value = serde_json::from_str(&encode_item(&sd).unwrap()).unwrap();
    let object = parsed.as_object().unwrap();
    assert!(!object.contains_key("color"));
    assert_eq!(object.len(), 3);
}

#[test]
fn item_with_color_has_four_keys() {
    let sd = item("cpu", Some("#FB5245"), Markup::Plain, "85.3%");
    let text = encode_item(&sd).unwrap();
    assert_eq!(
        text,
        "{\"name\":\"cpu\",\"color\":\"#FB5245\",\"markup\":\"none\",\"full_text\":\"85.3%\"}"
    );
    let parsed: serde_json::Value = serde_json::from_str(&text).unwrap();
    assert_eq!(parsed["name"].as_str(), Some("cpu"));
    assert_eq!(parsed["color"].as_str(), Some("#FB5245"));
    assert_eq!(parsed["markup"].as_str(), Some("none"));
    assert_eq!(parsed["full_text"].as_str(), Some("85.3%"));
}

#[test]
fn strings_are_escaped() {
    assert_eq!(quote("plain").unwrap(), "\"plain\"");
    assert_eq!(quote("").unwrap(), "\"\"");
    assert_eq!(quote("a\"b").unwrap(), "\"a\\\"b\"");
    assert_eq!(quote("a\\b").unwrap(), "\"a\\\\b\"");
    assert_eq!(
        quote("\u{8}\t\n\u{c}\r").unwrap(),
        "\"\\b\\t\\n\\f\\r\""
    );
    assert_eq!(quote("\u{0}\u{1f}\u{b}").unwrap(), "\"\\u0000\\u001f\\u000b\"");
    assert_eq!(quote("\u{7f}é€😀/").unwrap(), "\"\u{7f}é€😀/\"");
}

#[test]
fn markup_survives_a_round_trip() {
    let sd = Colorizer::Inline.segment("memory_usage", "8.0/16.0 GiB", Color::Yellow);
    let text = encode_item(&sd).unwrap();
    assert_eq!(
        text,
        "{\"name\":\"memory_usage\",\"markup\":\"pango\",\"full_text\":\"<span foreground=\\\"#FAC149\\\">8.0/16.0 GiB</span>\"}"
    );
    let parsed: serde_json::Value = serde_json::from_str(&text).unwrap();
    assert_eq!(
        parsed["full_text"].as_str(),
        Some("<span foreground=\"#FAC149\">8.0/16.0 GiB</span>")
    );
}

#[test]
fn tick_is_an_array_without_empty_items() {
    let mut status = Status::new();
    assert_eq!(encode_tick(&status).unwrap(), "[]");
    status.data.push(item("a", None, Markup::Pango, "1"));
    status.data.push(StatusData::default());
    status.data.push(item("b", None, Markup::Pango, "2"));
    let text = encode_tick(&status).unwrap();
    assert_eq!(
        text,
        "[{\"name\":\"a\",\"markup\":\"pango\",\"full_text\":\"1\"},{\"name\":\"b\",\"markup\":\"pango\",\"full_text\":\"2\"}]"
    );
    let parsed: serde_json::Value = serde_json::from_str(&text).unwrap();
    assert_eq!(parsed.as_array().unwrap().len(), 2);
}

#[test]
fn attach_right_joins_names_and_texts() {
    let mut a = item("a", Some("x"), Markup::Plain, "left");
    let b = item("b", Some("y"), Markup::Pango, "right");
    a.attach_right(b, " ");
    assert_eq!(a.name, "a_b");
    assert_eq!(a.full_text, "left right");
    assert_eq!(a.color.as_deref(), Some("x"));
    assert_eq!(a.markup, Markup::Plain);
}

#[test]
fn attach_right_is_associative_but_not_commutative() {
    let make = |n: &str| item(n, None, Markup::Pango, &n.to_uppercase());
    let mut left = make("a");
    left.attach_right(make("b"), "-");
    left.attach_right(make("c"), "-");
    let mut tail = make("b");
    tail.attach_right(make("c"), "-");
    let mut right = make("a");
    right.attach_right(tail, "-");
    assert_eq!(left.full_text, "A-B-C");
    assert_eq!(left.full_text, right.full_text);
    assert_eq!(left.name, right.name);
    let mut ab = make("a");
    ab.attach_right(make("b"), "-");
    let mut ba = make("b");
    ba.attach_right(make("a"), "-");
    assert_ne!(ab.full_text, ba.full_text);
}

#[test]
fn default_item_is_empty() {
    let d = StatusData::default();
    assert!(d.is_empty());
    assert_eq!(d.name, "");
    assert_eq!(d.full_text, "");
    assert_eq!(d.color, None);
    assert_eq!(d.markup, Markup::Pango);
    assert!(!item("a", None, Markup::Pango, "").is_empty());
    assert!(!item("", None, Markup::Pango, "x").is_empty());
    assert!(Status::new().data.is_empty());
    assert!(Status::default().data.is_empty());
}
