use rhythm::chart::{Chart, ChartError, ChartRecord, NoteEvent};
use rhythm::lane::{Directions, Speed};

fn note(t: i64, lane: Directions, speed: Speed) -> NoteEvent {
    NoteEvent { spawn_time: t, lane, speed }
}

fn record(t: i64, speed: &str, direction: &str) -> ChartRecord {
    ChartRecord { time_us: t, speed: speed.to_string(), direction: direction.to_string() }
}

#[test]
fn sorted_chart_is_accepted() {
    let notes = vec![
        note(0, Directions::Up, Speed::Slow),
        note(1_000_000, Directions::Down, Speed::Fast),
        note(1_000_000, Directions::Left, Speed::Medium),
    ];
    let c = Chart::new(notes.clone()).unwrap();
    assert_eq!(c.len(), 3);
    for i in 0..3 {
        assert_eq!(c.get(i), notes[i]);
    }
}

#[test]
fn empty_chart_is_accepted() {
    let c = Chart::new(vec![]).unwrap();
    assert_eq!(c.len(), 0);
    assert_eq!(Chart::empty().len(), 0);
}

#[test]
fn unsorted_chart_is_refused_at_first_descent() {
    let notes = vec![
        note(0, Directions::Up, Speed::Slow),
        note(2_000_000, Directions::Down, Speed::Slow),
        note(1_000_000, Directions::Left, Speed::Slow),
        note(500_000, Directions::Right, Speed::Slow),
    ];
    assert_eq!(Chart::new(notes).err(), Some(ChartError::Unsorted { index: 2 }));
}

#[test]
fn unknown_speed_is_refused() {
    let rs = vec![record(0, "Slow", "Up"), record(1, "Turbo", "Up"), record(2, "Slow", "Sideways")];
    assert_eq!(Chart::from_records(&rs).err(), Some(ChartError::UnknownSpeed { index: 1 }));
}

#[test]
fn unknown_direction_is_refused() {
    let rs = vec![record(0, "Slow", "Up"), record(1, "Fast", "up")];
    assert_eq!(Chart::from_records(&rs).err(), Some(ChartError::UnknownDirection { index: 1 }));
}

#[test]
fn unsorted_records_are_refused() {
    let rs = vec![record(5, "Slow", "Up"), record(1, "Fast", "Down")];
    assert_eq!(Chart::from_records(&rs).err(), Some(ChartError::Unsorted { index: 1 }));
}

#[test]
fn records_are_read_by_name() {
    let rs = vec![
        record(100, "Slow", "Up"),
        record(200, "Medium", "Down"),
        record(300, "Fast", "Left"),
        record(300, "Slow", "Right"),
    ];
    let c = Chart::from_records(&rs).unwrap();
    assert_eq!(c.get(0), note(100, Directions::Up, Speed::Slow));
    assert_eq!(c.get(1), note(200, Directions::Down, Speed::Medium));
    assert_eq!(c.get(2), note(300, Directions::Left, Speed::Fast));
    assert_eq!(c.get(3), note(300, Directions::Right, Speed::Slow));
}

#[test]
fn records_round_trip() {
    let notes = vec![
        note(-7, Directions::Right, Speed::Fast),
        note(500_000, Directions::Up, Speed::Slow),
        note(1_200_000, Directions::Down, Speed::Medium),
    ];
    let c = Chart::new(notes.clone()).unwrap();
    let rs = c.to_records();
    assert_eq!(rs[0].speed, "Fast");
    assert_eq!(rs[0].direction, "Right");
    assert_eq!(rs[2].speed, "Medium");
    let back = Chart::from_records(&rs).unwrap();
    assert_eq!(back.len(), 3);
    for i in 0..3 {
        assert_eq!(back.get(i), notes[i]);
    }
}

#[test]
fn names_parse_back() {
    for d in [Directions::Up, Directions::Down, Directions::Left, Directions::Right] {
        assert_eq!(Directions::parse(d.name()), Some(d));
    }
    for s in [Speed::Slow, Speed::Medium, Speed::Fast] {
        assert_eq!(Speed::parse(s.name()), Some(s));
    }
    assert_eq!(Directions::parse(""), None);
    assert_eq!(Speed::parse("Slowly"), None);
}

#[test]
fn lane_constants() {
    assert_eq!(Directions::Up.y(), 150_000_000);
    assert_eq!(Directions::Right.y(), -150_000_000);
    assert_eq!(Directions::Left.rotation(), 3_141_593);
    assert_eq!(Speed::Medium.value(), 240);
    assert_eq!(Speed::Fast.multiplier(), 150);
}
