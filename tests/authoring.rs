use rhythm::chart::{Chart, NoteEvent};
use rhythm::lane::{Directions, Speed};
use rhythm::session::{LaneInput, Session};

fn press(lanes: &[Directions]) -> LaneInput {
    LaneInput {
        up: lanes.contains(&Directions::Up),
        down: lanes.contains(&Directions::Down),
        left: lanes.contains(&Directions::Left),
        right: lanes.contains(&Directions::Right),
    }
}

#[test]
fn recorded_chart_plays_back_in_order() {
    let mut a = Session::new();
    a.start_authoring().unwrap();
    let ev = a.tick(500_000, press(&[Directions::Up]));
    assert_eq!(ev.recorded, vec![NoteEvent { spawn_time: 500_000, lane: Directions::Up, speed: Speed::Slow }]);
    a.tick(700_000, press(&[Directions::Left, Directions::Down]));
    let chart = a.take_recording().unwrap();
    assert!(a.take_recording().is_none());

    // through the chart file's records and back
    let loaded = Chart::from_records(&chart.to_records()).unwrap();
    assert_eq!(loaded.len(), 3);

    let mut p = Session::new();
    p.start_play(loaded).unwrap();
    let ev = p.tick(3_400_000, LaneInput::none());
    assert!(ev.activated.is_empty());
    let ev = p.tick(100_000, LaneInput::none());
    assert_eq!(ev.activated, vec![NoteEvent { spawn_time: 500_000, lane: Directions::Up, speed: Speed::Slow }]);
    let ev = p.tick(700_000, LaneInput::none());
    assert_eq!(
        ev.activated,
        vec![
            NoteEvent { spawn_time: 1_200_000, lane: Directions::Down, speed: Speed::Slow },
            NoteEvent { spawn_time: 1_200_000, lane: Directions::Left, speed: Speed::Slow },
        ]
    );
}

#[test]
fn simultaneous_presses_follow_lane_order() {
    let mut a = Session::new();
    a.start_authoring().unwrap();
    let ev = a.tick(250_000, press(&[Directions::Right, Directions::Left, Directions::Down, Directions::Up]));
    let lanes: Vec<Directions> = ev.recorded.iter().map(|e| e.lane).collect();
    assert_eq!(lanes, vec![Directions::Up, Directions::Down, Directions::Left, Directions::Right]);
    assert!(ev.recorded.iter().all(|e| e.spawn_time == 250_000));
    assert_eq!(a.recording().len(), 4);
}

#[test]
fn recording_is_handed_out_once_and_only_when_authoring() {
    let mut m = Session::new();
    assert!(m.take_recording().is_none());
    let mut a = Session::new();
    a.start_authoring().unwrap();
    let c = a.take_recording().unwrap();
    assert_eq!(c.len(), 0);
    assert!(a.take_recording().is_none());
}
