use rhythm::chart::{Chart, NoteEvent};
use rhythm::lane::{Directions, Speed};
use rhythm::session::{Hit, LaneInput, Mode, ModeError, Session};

fn note(t: i64, lane: Directions, speed: Speed) -> NoteEvent {
    NoteEvent { spawn_time: t, lane, speed }
}

fn playing(notes: Vec<NoteEvent>) -> Session {
    let mut s = Session::new();
    s.start_play(Chart::new(notes).unwrap()).unwrap();
    s
}

/// Plays `notes` up to the frame that activates those at song time zero,
/// which leaves them one microsecond in flight.
fn launched(notes: Vec<NoteEvent>) -> Session {
    let mut s = playing(notes);
    s.tick(2_999_999, LaneInput::none());
    s.tick(1, LaneInput::none());
    s
}

fn press(lanes: &[Directions]) -> LaneInput {
    let mut i = LaneInput::none();
    for l in lanes {
        match l {
            Directions::Up => i.up = true,
            Directions::Down => i.down = true,
            Directions::Left => i.left = true,
            Directions::Right => i.right = true,
        }
    }
    i
}

fn score_of(s: &Session) -> (u128, usize, usize) {
    let sc = s.score();
    (sc.score(), sc.corrects(), sc.fails())
}

#[test]
fn two_notes_due_together_activate_together() {
    let mut s = playing(vec![note(1_000_000, Directions::Up, Speed::Slow), note(1_000_000, Directions::Down, Speed::Slow)]);
    let ev = s.tick(3_900_000, LaneInput::none());
    assert!(ev.activated.is_empty());
    let ev = s.tick(200_000, LaneInput::none());
    assert_eq!(ev.activated.len(), 2);
    assert_eq!(ev.activated[0].lane, Directions::Up);
    assert_eq!(ev.activated[1].lane, Directions::Down);
    assert_eq!(s.active_notes().len(), 2);
    assert_eq!(s.active_notes()[0].x(), -360_000_000);
    // both reach the target together and each press hits its own lane
    let ev = s.tick(2_800_000, press(&[Directions::Up, Directions::Down]));
    assert_eq!(ev.hits, vec![Hit { lane: Directions::Up, points: 100 }, Hit { lane: Directions::Down, points: 100 }]);
    assert!(s.active_notes().is_empty());
    assert_eq!(score_of(&s), (200, 2, 0));
}

#[test]
fn notes_due_together_are_hit_independently() {
    let mut s = playing(vec![note(1_000_000, Directions::Up, Speed::Slow), note(1_000_000, Directions::Down, Speed::Slow)]);
    s.tick(3_999_999, LaneInput::none());
    assert_eq!(s.tick(1, LaneInput::none()).activated.len(), 2);
    let ev = s.tick(2_999_999, press(&[Directions::Down]));
    assert_eq!(ev.hits, vec![Hit { lane: Directions::Down, points: 100 }]);
    assert_eq!(s.active_notes().len(), 1);
    assert_eq!(s.active_notes()[0].lane, Directions::Up);
}

#[test]
fn empty_chart_stays_silent() {
    let mut s = playing(vec![]);
    for _ in 0..100 {
        let ev = s.tick(100_000, press(&[Directions::Up, Directions::Left]));
        assert!(ev.activated.is_empty());
        assert!(ev.hits.is_empty());
        assert!(ev.misses.is_empty());
        assert_eq!(score_of(&s), (0, 0, 0));
    }
    assert_eq!(s.next_pending(), None);
}

#[test]
fn long_stall_still_activates_everything_in_order() {
    let chart = vec![
        note(500_000, Directions::Up, Speed::Slow),
        note(1_000_000, Directions::Left, Speed::Fast),
        note(2_000_000, Directions::Right, Speed::Medium),
        note(9_000_000, Directions::Down, Speed::Slow),
    ];
    let mut s = playing(chart.clone());
    let ev = s.tick(10_000_000, LaneInput::none());
    assert_eq!(ev.activated, chart[0..3].to_vec());
    // they went far past the miss line within the frame
    assert_eq!(ev.misses, vec![Directions::Up, Directions::Left, Directions::Right]);
    assert_eq!(score_of(&s), (0, 0, 3));
    assert_eq!(s.pending_len(), 1);
    let ev = s.tick(1_000_000, LaneInput::none());
    assert!(ev.activated.is_empty());
    let ev = s.tick(1_000_000, LaneInput::none());
    assert_eq!(ev.activated, chart[3..4].to_vec());
}

#[test]
fn activation_window_is_open_below_and_closed_above() {
    let mut s = playing(vec![note(1_000_000, Directions::Up, Speed::Slow)]);
    let ev = s.tick(3_999_999, LaneInput::none());
    assert!(ev.activated.is_empty());
    let ev = s.tick(1, LaneInput::none());
    assert_eq!(ev.activated.len(), 1);
    let ev = s.tick(1, LaneInput::none());
    assert!(ev.activated.is_empty());
}

#[test]
fn notes_before_song_start_never_activate() {
    let mut s = playing(vec![note(-1_000_000, Directions::Up, Speed::Slow), note(0, Directions::Down, Speed::Slow)]);
    let ev = s.tick(2_500_000, LaneInput::none());
    assert!(ev.activated.is_empty());
    assert_eq!(s.pending_len(), 1);
    let ev = s.tick(500_000, LaneInput::none());
    assert_eq!(ev.activated, vec![note(0, Directions::Down, Speed::Slow)]);
}

#[test]
fn pending_head_never_goes_back() {
    let chart = vec![
        note(100_000, Directions::Up, Speed::Slow),
        note(100_000, Directions::Down, Speed::Slow),
        note(700_000, Directions::Left, Speed::Slow),
        note(1_300_000, Directions::Right, Speed::Slow),
    ];
    let mut s = playing(chart);
    let mut last = i64::MIN;
    let mut len = s.pending_len();
    for _ in 0..60 {
        s.tick(77_777, LaneInput::none());
        assert!(s.pending_len() <= len);
        len = s.pending_len();
        if let Some(h) = s.next_pending() {
            assert!(h.spawn_time >= last);
            last = h.spawn_time;
        }
    }
    assert_eq!(s.pending_len(), 0);
}

#[test]
fn press_at_window_bounds_hits_and_beyond_does_not() {
    // upper bound: x = target + threshold after 3.1 s in flight
    let mut s = launched(vec![note(0, Directions::Up, Speed::Slow)]);
    assert_eq!(s.active_notes()[0].age, 1);
    let ev = s.tick(3_099_999, press(&[Directions::Up]));
    assert_eq!(ev.hits, vec![Hit { lane: Directions::Up, points: 10 }]);

    // one microsecond later it is 200 micro-pixels past the window
    let mut s = launched(vec![note(0, Directions::Up, Speed::Slow)]);
    let ev = s.tick(3_100_000, press(&[Directions::Up]));
    assert!(ev.hits.is_empty());
    assert_eq!(s.active_notes().len(), 1);
    assert_eq!(score_of(&s), (0, 0, 0));

    // lower bound: x = target - threshold after 2.9 s
    let mut s = launched(vec![note(0, Directions::Up, Speed::Slow)]);
    let ev = s.tick(2_899_999, press(&[Directions::Up]));
    assert_eq!(ev.hits, vec![Hit { lane: Directions::Up, points: 10 }]);

    let mut s = launched(vec![note(0, Directions::Up, Speed::Slow)]);
    let ev = s.tick(2_899_998, press(&[Directions::Up]));
    assert!(ev.hits.is_empty());
}

#[test]
fn press_halfway_in_window_scores_by_distance() {
    let mut s = launched(vec![note(0, Directions::Left, Speed::Slow)]);
    let ev = s.tick(2_949_999, press(&[Directions::Left]));
    assert_eq!(ev.hits, vec![Hit { lane: Directions::Left, points: 50 }]);
    assert_eq!(score_of(&s), (50, 1, 0));
}

#[test]
fn press_on_other_lane_or_empty_lane_does_nothing() {
    let mut s = launched(vec![note(0, Directions::Left, Speed::Slow)]);
    let ev = s.tick(2_999_999, press(&[Directions::Right, Directions::Up]));
    assert!(ev.hits.is_empty());
    assert_eq!(s.active_notes().len(), 1);
}

#[test]
fn one_press_takes_one_note() {
    let mut s = launched(vec![note(0, Directions::Up, Speed::Slow), note(50_000, Directions::Up, Speed::Slow)]);
    assert_eq!(s.tick(50_000, LaneInput::none()).activated.len(), 1);
    let ev = s.tick(2_949_999, press(&[Directions::Up]));
    // both are in the window; the press takes the older one
    assert_eq!(ev.hits, vec![Hit { lane: Directions::Up, points: 100 }]);
    assert_eq!(s.active_notes().len(), 1);
    assert_eq!(s.active_notes()[0].age, 2_999_999);
}

#[test]
fn unhit_note_is_missed_once() {
    let mut s = launched(vec![note(0, Directions::Down, Speed::Slow)]);
    let ev = s.tick(3_999_998, LaneInput::none());
    assert!(ev.misses.is_empty());
    let ev = s.tick(1, LaneInput::none());
    assert_eq!(ev.misses, vec![Directions::Down]);
    assert!(s.active_notes().is_empty());
    assert_eq!(score_of(&s), (0, 0, 1));
    for _ in 0..10 {
        let ev = s.tick(1_000_000, press(&[Directions::Down]));
        assert!(ev.misses.is_empty());
    }
    assert_eq!(score_of(&s), (0, 0, 1));
}

#[test]
fn song_start_is_signalled_once() {
    let mut s = playing(vec![]);
    assert!(!s.tick(2_999_999, LaneInput::none()).song_started);
    assert_eq!(s.shown_song_time_us(), None);
    assert!(s.tick(1, LaneInput::none()).song_started);
    assert_eq!(s.shown_song_time_us(), Some(0));
    assert!(!s.tick(0, LaneInput::none()).song_started);
    assert!(!s.tick(1, LaneInput::none()).song_started);
    assert_eq!(s.song_time_us(), 1);
    assert_eq!(s.elapsed_us(), 3_000_001);
}

#[test]
fn modes_are_entered_from_the_menu_only() {
    let mut s = Session::new();
    assert_eq!(s.mode(), Mode::Menu);
    let ev = s.tick(1_000_000, press(&[Directions::Up]));
    assert!(ev.activated.is_empty() && ev.recorded.is_empty());
    assert_eq!(s.elapsed_us(), 0);
    s.start_play(Chart::empty()).unwrap();
    assert_eq!(s.mode(), Mode::Play);
    assert_eq!(s.start_authoring(), Err(ModeError::NotInMenu));
    assert_eq!(s.start_play(Chart::empty()), Err(ModeError::NotInMenu));
    assert_eq!(s.mode(), Mode::Play);
    let mut a = Session::new();
    a.start_authoring().unwrap();
    assert_eq!(a.mode(), Mode::Author);
    assert_eq!(a.start_play(Chart::empty()), Err(ModeError::NotInMenu));
}
