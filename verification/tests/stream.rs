use status_line::color::Colorizer;
use status_line::json::EncodeError;
use status_line::schedule::{
    clock_tick, full_tick, Action, Event, Format, Phase, Sample, Scheduler,
};
use status_line::single::Single;
use status_line::status::{Status, StatusData};
use status_line::stream::{plain_line, StreamEncoder};
use status_line::system::{DiskSpace, GIB};
use status_line::time::LocalDateTime;

fn now() -> LocalDateTime {
    LocalDateTime::new(2024, 5, 17, 8, 30, 0, 0).unwrap()
}

fn tick(disks: &[DiskSpace], colorizer: Colorizer) -> Status {
    full_tick(disks, Single::from_bits(85.3f32.to_bits()), 8 * GIB, 16 * GIB, &now(), colorizer)
}

#[test]
fn header_opens_the_array() {
    let (_, header) = StreamEncoder::new();
    assert_eq!(header, "{\"version\":1}\n[\n");
}

#[test]
fn first_record_has_no_comma_later_ones_have() {
    let (mut encoder, _) = StreamEncoder::new();
    let first = encoder.emit(&clock_tick(&now())).unwrap();
    let second = encoder.emit(&clock_tick(&now())).unwrap();
    let third = encoder.emit(&clock_tick(&now())).unwrap();
    let record =
        "[{\"name\":\"datetime_local\",\"markup\":\"pango\",\"full_text\":\"2024-05-17 08:30:00\"}]";
    assert_eq!(first, format!("{}\n", record));
    assert_eq!(second, format!(",{}\n", record));
    assert_eq!(third, format!(",{}\n", record));
}

#[test]
fn closed_stream_is_a_json_array() {
    let disks = [DiskSpace { available: 20 * GIB, total: 100 * GIB }];
    let (mut encoder, header) = StreamEncoder::new();
    let mut written = header;
    for k in 0..4 {
        let t = if k % 2 == 0 {
            tick(&disks, Colorizer::Inline)
        } else {
            tick(&[], Colorizer::Field)
        };
        written.push_str(&encoder.emit(&t).unwrap());
        let (version, array) = written.split_once('\n').unwrap();
        let head: serde_json::Value = serde_json::from_str(version).unwrap();
        assert_eq!(head["version"].as_u64(), Some(1));
        let closed = format!("{}]", array);
        let parsed: serde_json::Value = serde_json::from_str(&closed).unwrap();
        let records = parsed.as_array().unwrap();
        assert_eq!(records.len(), k + 1);
        assert_eq!(records[k].as_array().unwrap().len(), if k % 2 == 0 { 4 } else { 3 });
    }
}

#[test]
fn stream_without_records_closes_to_an_empty_array() {
    let (_, header) = StreamEncoder::new();
    let (_, array) = header.split_once('\n').unwrap();
    let parsed: serde_json::Value = serde_json::from_str(&format!("{}]", array)).unwrap();
    assert_eq!(parsed.as_array().unwrap().len(), 0);
}

#[test]
fn empty_tick_is_passed_over() {
    let (mut encoder, _) = StreamEncoder::new();
    assert_eq!(encoder.emit(&Status::new()), None);
    let mut only_empty = Status::new();
    only_empty.data.push(StatusData::default());
    assert_eq!(encoder.emit(&only_empty), None);
    let line = encoder.emit(&clock_tick(&now())).unwrap();
    assert!(line.starts_with("[{"));
}

#[test]
fn failed_record_is_passed_over() {
    let (mut encoder, _) = StreamEncoder::new();
    assert_eq!(encoder.frame(Err(EncodeError::Serialize)), None);
    assert_eq!(encoder.frame(Ok("[1]".to_string())), Some("[1]\n".to_string()));
    assert_eq!(encoder.frame(Err(EncodeError::Serialize)), None);
    assert_eq!(encoder.frame(Ok("[2]".to_string())), Some(",[2]\n".to_string()));
}

#[test]
fn plain_line_starts_with_a_line_feed() {
    assert_eq!(plain_line(&vec![]), "\n");
    assert_eq!(plain_line(&vec!["a".to_string()]), "\na");
    assert_eq!(
        plain_line(&vec!["a".to_string(), "b".to_string(), "c".to_string()]),
        "\na | b | c"
    );
}

#[test]
fn full_tick_has_four_items_in_display_order() {
    let disks = [DiskSpace { available: 20 * GIB, total: 100 * GIB }];
    let status = tick(&disks, Colorizer::Field);
    let names: Vec<&str> = status.data.iter().map(|d| d.name.as_str()).collect();
    assert_eq!(
        names,
        vec!["available_disk_total_disk_usage", "cpu_usage", "memory_usage", "datetime_local"]
    );
    assert_eq!(status.data[0].full_text, "20.0 GiB 80.0%");
    assert_eq!(status.data[0].color.as_deref(), Some("#FAC149"));
    assert_eq!(status.data[1].full_text, "85.3%");
    assert_eq!(status.data[1].color.as_deref(), Some("#FB5245"));
    assert_eq!(status.data[2].full_text, "8.0/16.0 GiB");
    assert_eq!(status.data[2].color, None);
    assert_eq!(status.data[3].full_text, "2024-05-17 08:30:00");
    assert_eq!(status.data[3].color, None);
}

#[test]
fn full_tick_without_disks_has_three_items() {
    let status = tick(&[], Colorizer::Inline);
    assert_eq!(status.data.len(), 3);
    assert_eq!(status.data[0].name, "cpu_usage");
    assert_eq!(
        status.data[0].full_text,
        "<span foreground=\"#FB5245\">85.3%</span>"
    );
    assert_eq!(
        status.data[1].full_text,
        "<span foreground=\"#EBDBB2\">8.0/16.0 GiB</span>"
    );
}

#[test]
fn format_names() {
    assert_eq!(Format::parse("primary"), Some(Format::Full));
    assert_eq!(Format::parse("non-primary"), Some(Format::DateAndTime));
    assert_eq!(Format::parse("Primary"), None);
    assert_eq!(Format::parse(""), None);
    assert_eq!(Format::parse("primary "), None);
}

#[test]
fn a_tick_fires_once_for_each_second() {
    let mut machine = Scheduler::new(Format::DateAndTime, Colorizer::Inline, 100);
    assert!(matches!(machine.step(Event::Clock(100)), Action::Sleep));
    assert_eq!(machine.phase, Phase::Idle);
    assert!(matches!(machine.step(Event::Clock(101)), Action::Acquire(Format::DateAndTime)));
    assert_eq!(machine.phase, Phase::Sampling);
    assert!(matches!(machine.step(Event::Clock(102)), Action::Acquire(Format::DateAndTime)));
    match machine.step(Event::Sampled(Sample::Clock { now: now() })) {
        Action::Emit(status) => assert_eq!(status.data.len(), 1),
        other => panic!("{:?}", other),
    }
    assert_eq!(machine.phase, Phase::Idle);
    assert_eq!(machine.last_tick, 101);
    assert!(matches!(machine.step(Event::Clock(101)), Action::Sleep));
    assert!(matches!(machine.step(Event::Clock(99)), Action::Acquire(Format::DateAndTime)));
}

#[test]
fn a_sample_of_the_wrong_kind_is_asked_for_again() {
    let mut machine = Scheduler::new(Format::Full, Colorizer::Inline, 0);
    assert!(matches!(
        machine.step(Event::Sampled(Sample::Clock { now: now() })),
        Action::Sleep
    ));
    assert!(matches!(machine.step(Event::Clock(1)), Action::Acquire(Format::Full)));
    assert!(matches!(
        machine.step(Event::Sampled(Sample::Clock { now: now() })),
        Action::Acquire(Format::Full)
    ));
    let sample = Sample::Full {
        disks: vec![],
        cpu: Single::from_bits(0),
        memory_used: 1,
        memory_total: 2,
        now: now(),
    };
    match machine.step(Event::Sampled(sample)) {
        Action::Emit(status) => assert_eq!(status.data.len(), 3),
        other => panic!("{:?}", other),
    }
    assert_eq!(machine.last_tick, 1);
}
