use status_line::color::Colorizer;
use status_line::single::Single;
use status_line::status::Markup;
use status_line::system::{DiskSpace, GIB};
use status_line::time::LocalDateTime;
use status_line::values::system::{available_disk_total, cpu_usage, disk_usage, memory_usage};
use status_line::values::time::{date_local, datetime_local, time_local};

#[test]
fn memory_item_end_to_end() {
    let item = memory_usage(8 * GIB, 16 * GIB, Colorizer::Field);
    assert_eq!(item.name, "memory_usage");
    assert_eq!(item.full_text, "8.0/16.0 GiB");
    assert_eq!(item.color, None);
    assert_eq!(item.markup, Markup::Plain);
    let item = memory_usage(8 * GIB + 1, 16 * GIB, Colorizer::Field);
    assert_eq!(item.full_text, "8.0/16.0 GiB");
    assert_eq!(item.color.as_deref(), Some("#FAC149"));
}

#[test]
fn memory_item_at_eighty_percent() {
    assert_eq!(memory_usage(8000, 10000, Colorizer::Field).color.as_deref(), Some("#FAC149"));
    assert_eq!(memory_usage(8001, 10000, Colorizer::Field).color.as_deref(), Some("#FB5245"));
}

#[test]
fn cpu_item_end_to_end() {
    let item = cpu_usage(Single::from_bits(85.3f32.to_bits()), Colorizer::Field);
    assert_eq!(item.name, "cpu_usage");
    assert_eq!(item.full_text, "85.3%");
    assert_eq!(item.color.as_deref(), Some("#FB5245"));
    let item = cpu_usage(Single::from_bits(85.3f32.to_bits()), Colorizer::Inline);
    assert_eq!(item.full_text, "<span foreground=\"#FB5245\">85.3%</span>");
    assert_eq!(item.color, None);
    assert_eq!(item.markup, Markup::Pango);
}

#[test]
fn cpu_item_at_fifty_percent() {
    let at = |x: f32| cpu_usage(Single::from_bits(x.to_bits()), Colorizer::Field).color;
    assert_eq!(at(50.0), None);
    assert_eq!(at(50.01).as_deref(), Some("#FAC149"));
    assert_eq!(at(80.0).as_deref(), Some("#FAC149"));
    assert_eq!(at(80.01).as_deref(), Some("#FB5245"));
}

#[test]
fn disk_items_without_disks() {
    assert!(available_disk_total(&[], Colorizer::Inline).is_none());
    assert!(disk_usage(&[], Colorizer::Inline).is_none());
    assert!(available_disk_total(&[], Colorizer::Field).is_none());
    assert!(disk_usage(&[], Colorizer::Field).is_none());
}

#[test]
fn disk_items() {
    let disks = [DiskSpace { available: 5 * GIB, total: 100 * GIB }];
    let a = available_disk_total(&disks, Colorizer::Field).unwrap();
    let u = disk_usage(&disks, Colorizer::Field).unwrap();
    assert_eq!(a.name, "available_disk_total");
    assert_eq!(a.full_text, "5.0 GiB");
    assert_eq!(a.color.as_deref(), Some("#FB5245"));
    assert_eq!(u.name, "disk_usage");
    assert_eq!(u.full_text, "95.0%");
    assert_eq!(u.color.as_deref(), Some("#FB5245"));
}

#[test]
fn time_items() {
    let t = LocalDateTime::new(2024, 1, 2, 3, 4, 5, 0).unwrap();
    let time = time_local(&t);
    let date = date_local(&t);
    let both = datetime_local(&t);
    assert_eq!((time.name.as_str(), time.full_text.as_str()), ("time_local", "03:04:05"));
    assert_eq!((date.name.as_str(), date.full_text.as_str()), ("date_local", "2024-01-02"));
    assert_eq!(
        (both.name.as_str(), both.full_text.as_str()),
        ("datetime_local", "2024-01-02 03:04:05")
    );
    assert_eq!(both.color, None);
    assert_eq!(both.markup, Markup::Pango);
}
