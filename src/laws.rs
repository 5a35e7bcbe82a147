use vstd::prelude::*;
use crate::chart::{ChartRecord, NoteEvent, note_record_matches, record_note, sorted_by_time};
use crate::consts::{MAX_POINTS, MISS_POSITION, TARGET_POSITION};
use crate::lane::{lemma_direction_name_round_trip, lemma_speed_name_round_trip};
use crate::motion::{ActiveNote, spec_position};
use crate::score::{ScoreView, lemma_bonus_curve, spec_hit_points, spec_in_window};
use crate::session::{
    Hit, LaneInput, Mode, SessionView, due_end, due_notes, lemma_due_end, resolve, spec_tick,
};

verus! {

proof fn lemma_due_notes_in(chart: Seq<NoteEvent>, from: int, to: int, lo: int, hi: int)
    requires
        0 <= from,
        to <= chart.len(),
        forall|k: int| from <= k < to && chart[k].spawn_time >= 0 ==> lo < chart[k].spawn_time <= hi,
    ensures
        due_notes(chart, from, to).len() <= if to < from { 0 } else { to - from },
        forall|i: int|
            0 <= i < due_notes(chart, from, to).len() ==> lo < (#[trigger] due_notes(chart, from, to)[i]).spawn_time <= hi,
    decreases to - from,
{
    if to > from {
        lemma_due_notes_in(chart, from, to - 1, lo, hi);
    }
}

proof fn lemma_due_notes_complete(chart: Seq<NoteEvent>, from: int, to: int)
    requires
        0 <= from,
        to <= chart.len(),
    ensures
        forall|k: int|
            from <= k < to && #[trigger] chart[k].spawn_time >= 0 ==> due_notes(chart, from, to).contains(
                chart[k],
            ),
    decreases to - from,
{
    if to > from {
        lemma_due_notes_complete(chart, from, to - 1);
        let d = due_notes(chart, from, to - 1);
        assert forall|k: int|
            from <= k < to && #[trigger] chart[k].spawn_time >= 0 implies due_notes(chart, from, to).contains(
            chart[k],
        ) by {
            if k < to - 1 {
                let j = choose|j: int| 0 <= j < d.len() && d[j] == chart[k];
                if chart[to - 1].spawn_time >= 0 {
                    assert(d.push(chart[to - 1])[j] == chart[k]);
                }
            } else {
                assert(d.push(chart[to - 1])[d.len() as int] == chart[k]);
            }
        }
    }
}

/// The pending queue only loses notes from its front: after any frame it is
/// a suffix of what it was, and its head's time never goes down.
pub proof fn lemma_pending_shrinks_in_order(s: SessionView, dt: nat, input: LaneInput)
    requires
        s.wf(),
        s.clock + dt <= crate::consts::MAX_CLOCK_US,
    ensures
        ({
            let t = spec_tick(s, dt as int, input).0;
            &&& s.head <= t.head <= s.chart.len()
            &&& t.chart == s.chart
            &&& t.pending() == s.pending().subrange(t.head - s.head, s.pending().len() as int)
            &&& (s.pending().len() > 0 && t.pending().len() > 0) ==> s.pending()[0].spawn_time
                <= t.pending()[0].spawn_time
        }),
{
    if s.mode == Mode::Play {
        lemma_due_end(s.chart, s.head, s.clock + dt - crate::consts::LEAD_IN_US);
    }
    let t = spec_tick(s, dt as int, input).0;
    assert(t.pending() =~= s.pending().subrange(t.head - s.head, s.pending().len() as int));
}

/// In a frame of play, a chart note activates exactly when it is at song
/// time zero or later and its time lies in `(previous song time, song time]`:
/// every such note still pending activates, in chart order, and leaves the
/// queue, so it never activates again; all that stays pending is later.
pub proof fn lemma_activation_window(s: SessionView, dt: nat, input: LaneInput)
    requires
        s.wf(),
        s.mode == Mode::Play,
        s.clock + dt <= crate::consts::MAX_CLOCK_US,
    ensures
        ({
            let (t, ev) = spec_tick(s, dt as int, input);
            &&& ev.activated == due_notes(s.chart, s.head, t.head)
            &&& forall|i: int|
                0 <= i < ev.activated.len() ==> {
                    &&& s.song_time() < (#[trigger] ev.activated[i]).spawn_time
                    &&& ev.activated[i].spawn_time <= t.song_time()
                    &&& ev.activated[i].spawn_time >= 0
                }
            &&& forall|k: int|
                s.head <= k < s.chart.len() && 0 <= #[trigger] s.chart[k].spawn_time <= t.song_time()
                    ==> k < t.head && ev.activated.contains(s.chart[k])
            &&& forall|k: int| t.head <= k < t.chart.len() ==> #[trigger] t.chart[k].spawn_time > t.song_time()
        }),
{
    let now = s.clock + dt - crate::consts::LEAD_IN_US;
    let h = due_end(s.chart, s.head, now);
    lemma_due_end(s.chart, s.head, now);
    assert forall|k: int| h <= k < s.chart.len() implies #[trigger] s.chart[k].spawn_time > now by {
        assert(s.chart[h].spawn_time <= s.chart[k].spawn_time);
    }
    lemma_due_notes_in(s.chart, s.head, h, s.song_time(), now);
    lemma_due_notes_complete(s.chart, s.head, h);
    let d = due_notes(s.chart, s.head, h);
    assert forall|i: int| 0 <= i < d.len() implies (#[trigger] d[i]).spawn_time >= 0 by {
        lemma_due_notes_nonnegative(s.chart, s.head, h);
    }
}

proof fn lemma_due_notes_nonnegative(chart: Seq<NoteEvent>, from: int, to: int)
    requires
        0 <= from,
        to <= chart.len(),
    ensures
        forall|i: int|
            0 <= i < due_notes(chart, from, to).len() ==> (#[trigger] due_notes(chart, from, to)[i]).spawn_time >= 0,
    decreases to - from,
{
    if to > from {
        lemma_due_notes_nonnegative(chart, from, to - 1);
    }
}

/// `k` is note `n` after `dt` more microseconds in flight.
pub open spec fn aged_by(k: ActiveNote, n: ActiveNote, dt: int) -> bool {
    &&& k.lane == n.lane
    &&& k.speed == n.speed
    &&& k.age == n.age + dt
    &&& k.spec_x() == spec_position(n.speed, n.age + dt)
}

/// A note that stays in flight through a frame is the same note, older by
/// exactly the frame's length: its position follows from its tier and its
/// time in flight, whatever the frames were.
pub proof fn lemma_kept_notes_age(notes: Seq<ActiveNote>, dt: nat, input: LaneInput, score: ScoreView)
    ensures
        forall|i: int|
            #![trigger resolve(notes, dt as int, input, score).kept[i]]
            0 <= i < resolve(notes, dt as int, input, score).kept.len() ==> exists|j: int|
                0 <= j < notes.len() && aged_by(
                    resolve(notes, dt as int, input, score).kept[i],
                    #[trigger] notes[j],
                    dt as int,
                ),
    decreases notes.len(),
{
    if notes.len() > 0 {
        let p = notes.drop_last();
        lemma_kept_notes_age(p, dt, input, score);
        let r = resolve(p, dt as int, input, score);
        let out = resolve(notes, dt as int, input, score);
        assert forall|i: int| #![trigger out.kept[i]] 0 <= i < out.kept.len() implies exists|j: int|
            0 <= j < notes.len() && aged_by(out.kept[i], #[trigger] notes[j], dt as int) by {
            if i < r.kept.len() {
                assert(out.kept[i] == r.kept[i]);
                let j = choose|j: int| 0 <= j < p.len() && aged_by(r.kept[i], #[trigger] p[j], dt as int);
                assert(p[j] == notes[j]);
            } else {
                let j = notes.len() - 1;
                assert(notes[j] == notes.last());
            }
        }
    }
}

/// How the detector judges a single note in a frame: hit when its lane was
/// pressed and it lies in the window, bounds included, for the bonus of its
/// distance (the largest on the target itself); else missed, once, when it
/// has reached the miss line; else kept.
pub proof fn lemma_judge_one(n: ActiveNote, dt: nat, input: LaneInput, score: ScoreView)
    ensures
        ({
            let x = spec_position(n.speed, n.age + dt);
            let r = resolve(seq![n], dt as int, input, score);
            &&& (input.spec_pressed(n.lane) && spec_in_window(x)) ==> {
                &&& r.hits == seq![Hit { lane: n.lane, points: spec_hit_points(TARGET_POSITION - x) as u64 }]
                &&& r.kept.len() == 0
                &&& r.misses.len() == 0
                &&& r.score == (ScoreView {
                    score: score.score + spec_hit_points(TARGET_POSITION - x) as nat,
                    corrects: score.corrects + 1,
                    fails: score.fails,
                })
                &&& spec_hit_points(TARGET_POSITION - x) <= MAX_POINTS
                &&& x == TARGET_POSITION ==> r.hits[0].points == MAX_POINTS
            }
            &&& !(input.spec_pressed(n.lane) && spec_in_window(x)) && x >= MISS_POSITION ==> {
                &&& r.misses == seq![n.lane]
                &&& r.hits.len() == 0
                &&& r.kept.len() == 0
                &&& r.score == (ScoreView { fails: score.fails + 1, ..score })
            }
            &&& !(input.spec_pressed(n.lane) && spec_in_window(x)) && x < MISS_POSITION ==> {
                &&& r.kept.len() == 1
                &&& r.hits.len() == 0
                &&& r.misses.len() == 0
                &&& r.score == score
            }
        }),
{
    let x = spec_position(n.speed, n.age + dt);
    assert(seq![n].drop_last() =~= Seq::<ActiveNote>::empty());
    assert(seq![n].last() == n);
    let r0 = resolve(Seq::<ActiveNote>::empty(), dt as int, input, score);
    assert(r0.kept.len() == 0 && r0.hits.len() == 0 && r0.misses.len() == 0);
    assert(r0.input == input && r0.score == score);
    lemma_bonus_curve(0, TARGET_POSITION - x);
    let p = spec_hit_points(TARGET_POSITION - x);
    assert(r0.hits.push(Hit { lane: n.lane, points: p as u64 }) =~= seq![Hit { lane: n.lane, points: p as u64 }]);
    assert(r0.misses.push(n.lane) =~= seq![n.lane]);
}

/// A chart with nothing left to schedule and nothing in flight stays silent:
/// a frame of play activates nothing and leaves the score as it was.
pub proof fn lemma_empty_chart_is_silent(s: SessionView, dt: nat, input: LaneInput)
    requires
        s.wf(),
        s.mode == Mode::Play,
        s.chart.len() == 0,
    ensures
        ({
            let (t, ev) = spec_tick(s, dt as int, input);
            &&& ev.activated.len() == 0
            &&& ev.hits.len() == 0
            &&& ev.misses.len() == 0
            &&& t.score == s.score
            &&& t.score == (ScoreView { score: 0, corrects: 0, fails: 0 })
            &&& t.active.len() == 0
        }),
{
    let now = s.clock + dt - crate::consts::LEAD_IN_US;
    assert(due_end(s.chart, s.head, now) == s.head);
    assert(s.active.len() == 0);
    let notes = s.active + due_notes(s.chart, s.head, s.head).map_values(
        |e: NoteEvent| crate::session::spawned(e),
    );
    assert(notes =~= Seq::<ActiveNote>::empty());
    let t = spec_tick(s, dt as int, input).0;
    assert(t.active =~= Seq::<ActiveNote>::empty());
}

/// What the recorder captured is a valid chart, and writing it to records and
/// reading them back gives the same notes, times and lanes exactly.
pub proof fn lemma_recording_round_trip(s: SessionView, rs: Seq<ChartRecord>)
    requires
        s.wf(),
        rs.len() == s.recording.len(),
        forall|i: int| 0 <= i < rs.len() ==> note_record_matches(#[trigger] rs[i], s.recording[i]),
    ensures
        sorted_by_time(s.recording),
        forall|i: int| 0 <= i < rs.len() ==> (#[trigger] record_note(rs[i])) == Some(s.recording[i]),
        rs.map_values(|r: ChartRecord| record_note(r)->Some_0) == s.recording,
{
    lemma_records_read_back(s.recording, rs);
}

/// Reading back the records written for notes `c` gives `c`.
pub proof fn lemma_records_read_back(c: Seq<NoteEvent>, rs: Seq<ChartRecord>)
    requires
        rs.len() == c.len(),
        forall|i: int| 0 <= i < rs.len() ==> note_record_matches(#[trigger] rs[i], c[i]),
    ensures
        forall|i: int| 0 <= i < rs.len() ==> (#[trigger] record_note(rs[i])) == Some(c[i]),
        rs.map_values(|r: ChartRecord| record_note(r)->Some_0) == c,
{
    assert forall|i: int| 0 <= i < rs.len() implies (#[trigger] record_note(rs[i])) == Some(c[i]) by {
        assert(note_record_matches(rs[i], c[i]));
        lemma_direction_name_round_trip(c[i].lane);
        lemma_speed_name_round_trip(c[i].speed);
    }
    assert(rs.map_values(|r: ChartRecord| record_note(r)->Some_0) =~= c);
}

} // verus!
