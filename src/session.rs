use vstd::prelude::*;
use crate::chart::{Chart, NoteEvent, sorted_by_time};
use crate::consts::{LEAD_IN_US, MAX_CLOCK_US, MAX_POINTS, MISS_POSITION, TARGET_POSITION, THRESHOLD};
use crate::lane::{Directions, Speed};
use crate::motion::{ActiveNote, reach, spec_position};
use crate::score::{ScoreResource, ScoreView, spec_hit_points, spec_in_window};

verus! {

/// Which pipeline runs.
#[derive(Clone, Copy, Debug, PartialEq, Eq, Structural)]
pub enum Mode {
    Menu,
    Play,
    Author,
}

/// The lanes whose key went down this frame.
#[derive(Clone, Copy, Debug, PartialEq, Eq, Structural)]
pub struct LaneInput {
    pub up: bool,
    pub down: bool,
    pub left: bool,
    pub right: bool,
}

/// A note hit this frame, and the bonus it earned.
#[derive(Clone, Copy, Debug, PartialEq, Eq, Structural)]
pub struct Hit {
    pub lane: Directions,
    pub points: u64,
}

/// Why a mode change was refused.
#[derive(Clone, Copy, Debug, PartialEq, Eq, Structural)]
pub enum ModeError {
    /// Play and authoring are entered from the menu only.
    NotInMenu,
}

impl LaneInput {
    pub open spec fn spec_pressed(self, d: Directions) -> bool {
        match d {
            Directions::Up => self.up,
            Directions::Down => self.down,
            Directions::Left => self.left,
            Directions::Right => self.right,
        }
    }

    /// The same presses but the one of lane `d`.
    pub open spec fn spec_released(self, d: Directions) -> LaneInput {
        match d {
            Directions::Up => LaneInput { up: false, ..self },
            Directions::Down => LaneInput { down: false, ..self },
            Directions::Left => LaneInput { left: false, ..self },
            Directions::Right => LaneInput { right: false, ..self },
        }
    }

    /// No key went down.
    pub fn none() -> (r: LaneInput)
        ensures
            forall|d: Directions| !r.spec_pressed(d),
    {
        LaneInput { up: false, down: false, left: false, right: false }
    }

    /// Whether the key of lane `d` went down.
    pub fn pressed(&self, d: Directions) -> (r: bool)
        ensures
            r == self.spec_pressed(d),
    {
        match d {
            Directions::Up => self.up,
            Directions::Down => self.down,
            Directions::Left => self.left,
            Directions::Right => self.right,
        }
    }

    fn released(&self, d: Directions) -> (r: LaneInput)
        ensures
            r == self.spec_released(d),
    {
        match d {
            Directions::Up => LaneInput { up: false, ..*self },
            Directions::Down => LaneInput { down: false, ..*self },
            Directions::Left => LaneInput { left: false, ..*self },
            Directions::Right => LaneInput { right: false, ..*self },
        }
    }
}

/// The note that an activated chart event puts in flight.
pub open spec fn spawned(e: NoteEvent) -> ActiveNote {
    ActiveNote { lane: e.lane, speed: e.speed, age: 0 }
}

/// Index of the first note from `i` on that is later than `now`: the
/// scheduler's scan stops there.
pub open spec fn due_end(chart: Seq<NoteEvent>, i: int, now: int) -> int
    decreases chart.len() - i,
{
    if 0 <= i < chart.len() && chart[i].spawn_time <= now {
        due_end(chart, i + 1, now)
    } else {
        i
    }
}

/// The notes of `chart[from..to]` that activate: those at song time zero or
/// later, in chart order.
pub open spec fn due_notes(chart: Seq<NoteEvent>, from: int, to: int) -> Seq<NoteEvent>
    decreases to - from,
{
    if to <= from {
        Seq::empty()
    } else if chart[to - 1].spawn_time >= 0 {
        due_notes(chart, from, to - 1).push(chart[to - 1])
    } else {
        due_notes(chart, from, to - 1)
    }
}

/// What the detector leaves after a frame.
pub struct Resolution {
    pub kept: Seq<ActiveNote>,
    pub hits: Seq<Hit>,
    pub misses: Seq<Directions>,
    pub input: LaneInput,
    pub score: ScoreView,
}

/// Moves each of `notes` on by `dt` and judges it, in order: a note in the
/// hit window whose lane was pressed is hit and takes that press; else a note
/// at or past the miss line is missed; else it stays in flight.
pub open spec fn resolve(notes: Seq<ActiveNote>, dt: int, input: LaneInput, score: ScoreView) -> Resolution
    decreases notes.len(),
{
    if notes.len() == 0 {
        Resolution { kept: Seq::empty(), hits: Seq::empty(), misses: Seq::empty(), input, score }
    } else {
        let r = resolve(notes.drop_last(), dt, input, score);
        let n = notes.last();
        let x = spec_position(n.speed, n.age + dt);
        if r.input.spec_pressed(n.lane) && spec_in_window(x) {
            let p = spec_hit_points(TARGET_POSITION - x);
            Resolution {
                hits: r.hits.push(Hit { lane: n.lane, points: p as u64 }),
                input: r.input.spec_released(n.lane),
                score: ScoreView {
                    score: r.score.score + p as nat,
                    corrects: r.score.corrects + 1,
                    fails: r.score.fails,
                },
                ..r
            }
        } else if x >= MISS_POSITION {
            Resolution {
                misses: r.misses.push(n.lane),
                score: ScoreView { fails: r.score.fails + 1, ..r.score },
                ..r
            }
        } else {
            Resolution {
                kept: r.kept.push(ActiveNote { age: (n.age + dt) as u64, ..n }),
                ..r
            }
        }
    }
}

/// The recorded note of lane `d` at clock reading `t`.
pub open spec fn press_event(d: Directions, t: int) -> NoteEvent {
    NoteEvent { spawn_time: t as i64, lane: d, speed: Speed::Slow }
}

/// What the recorder appends for one frame: one note per pressed lane, in
/// lane order.
pub open spec fn press_events(input: LaneInput, t: int) -> Seq<NoteEvent> {
    let s0 = Seq::<NoteEvent>::empty();
    let s1 = if input.up { s0.push(press_event(Directions::Up, t)) } else { s0 };
    let s2 = if input.down { s1.push(press_event(Directions::Down, t)) } else { s1 };
    let s3 = if input.left { s2.push(press_event(Directions::Left, t)) } else { s2 };
    if input.right { s3.push(press_event(Directions::Right, t)) } else { s3 }
}

/// The whole state of a session.
pub struct SessionView {
    pub mode: Mode,
    /// Microseconds since the current mode was entered.
    pub clock: int,
    pub chart: Seq<NoteEvent>,
    /// The pending queue is `chart[head..]`.
    pub head: int,
    pub active: Seq<ActiveNote>,
    pub score: ScoreView,
    pub recording: Seq<NoteEvent>,
    pub flushed: bool,
}

/// What one frame produced.
pub struct EventsView {
    pub activated: Seq<NoteEvent>,
    pub hits: Seq<Hit>,
    pub misses: Seq<Directions>,
    pub song_started: bool,
    pub recorded: Seq<NoteEvent>,
}

impl SessionView {
    /// Song time at the end of the last frame.
    pub open spec fn song_time(&self) -> int {
        self.clock - LEAD_IN_US
    }

    pub open spec fn pending(&self) -> Seq<NoteEvent> {
        self.chart.subrange(self.head, self.chart.len() as int)
    }

    pub open spec fn wf(&self) -> bool {
        &&& 0 <= self.clock <= MAX_CLOCK_US
        &&& sorted_by_time(self.chart)
        &&& self.chart.len() <= usize::MAX
        &&& 0 <= self.head <= self.chart.len()
        &&& self.mode != Mode::Play ==> self.head == self.chart.len()
        &&& forall|k: int|
            self.head <= k < self.chart.len() && #[trigger] self.chart[k].spawn_time >= 0
                ==> self.chart[k].spawn_time > self.song_time()
        &&& forall|i: int| 0 <= i < self.active.len() ==> (#[trigger] self.active[i]).wf()
        &&& self.score.corrects + self.score.fails + self.active.len() <= self.head
        &&& self.score.score <= MAX_POINTS * self.score.corrects
        &&& sorted_by_time(self.recording)
        &&& forall|i: int| 0 <= i < self.recording.len() ==> (#[trigger] self.recording[i]).spawn_time <= self.clock
    }
}

pub open spec fn no_events() -> EventsView {
    EventsView {
        activated: Seq::empty(),
        hits: Seq::empty(),
        misses: Seq::empty(),
        song_started: false,
        recorded: Seq::empty(),
    }
}

/// One frame of `dt` microseconds with presses `input`: in play the
/// scheduler, then motion, then the detector; in authoring the recorder; in
/// the menu nothing.
pub open spec fn spec_tick(s: SessionView, dt: int, input: LaneInput) -> (SessionView, EventsView) {
    let clock = s.clock + dt;
    match s.mode {
        Mode::Menu => (s, no_events()),
        Mode::Play => {
            let h = due_end(s.chart, s.head, clock - LEAD_IN_US);
            let due = due_notes(s.chart, s.head, h);
            let notes = s.active + due.map_values(|e: NoteEvent| spawned(e));
            let r = resolve(notes, dt, input, s.score);
            (
                SessionView { clock, head: h, active: r.kept, score: r.score, ..s },
                EventsView {
                    activated: due,
                    hits: r.hits,
                    misses: r.misses,
                    song_started: s.clock < LEAD_IN_US <= clock,
                    recorded: Seq::empty(),
                },
            )
        },
        Mode::Author => {
            let pressed = press_events(input, clock);
            (
                SessionView { clock, recording: s.recording + pressed, ..s },
                EventsView { recorded: pressed, ..no_events() },
            )
        },
    }
}

/// What one frame produced, for the presentation layers.
pub struct FrameEvents {
    /// Chart notes that went into flight, in chart order.
    pub activated: Vec<NoteEvent>,
    pub hits: Vec<Hit>,
    /// Lanes of the notes that passed the miss line unhit.
    pub misses: Vec<Directions>,
    /// The song's audio starts this frame.
    pub song_started: bool,
    /// Notes the recorder appended this frame.
    pub recorded: Vec<NoteEvent>,
}

impl View for FrameEvents {
    type V = EventsView;

    open spec fn view(&self) -> EventsView {
        EventsView {
            activated: self.activated@,
            hits: self.hits@,
            misses: self.misses@,
            song_started: self.song_started,
            recorded: self.recorded@,
        }
    }
}

/// A game session: the mode, its clock, the chart queue, the notes in
/// flight, the score and the recorder's buffer, advanced one frame at a time.
pub struct Session {
    mode: Mode,
    clock: u64,
    chart: Chart,
    head: usize,
    active: Vec<ActiveNote>,
    score: ScoreResource,
    recording: Vec<NoteEvent>,
    flushed: bool,
}

impl View for Session {
    type V = SessionView;

    closed spec fn view(&self) -> SessionView {
        SessionView {
            mode: self.mode,
            clock: self.clock as int,
            chart: self.chart@,
            head: self.head as int,
            active: self.active@,
            score: self.score@,
            recording: self.recording@,
            flushed: self.flushed,
        }
    }
}

/// The scheduler's scan stops at the first note later than `now`.
pub proof fn lemma_due_end(chart: Seq<NoteEvent>, i: int, now: int)
    requires
        0 <= i <= chart.len(),
    ensures
        i <= due_end(chart, i, now) <= chart.len(),
        forall|k: int| i <= k < due_end(chart, i, now) ==> chart[k].spawn_time <= now,
        due_end(chart, i, now) == chart.len() || chart[due_end(chart, i, now)].spawn_time > now,
    decreases chart.len() - i,
{
    if i < chart.len() && chart[i].spawn_time <= now {
        lemma_due_end(chart, i + 1, now);
    }
}

/// Moves `notes` on by `dt` and judges them; see `resolve`.
fn resolve_notes(notes: &Vec<ActiveNote>, dt: u64, input: LaneInput, score: &mut ScoreResource) -> (r: (
    Vec<ActiveNote>,
    Vec<Hit>,
    Vec<Directions>,
))
    requires
        old(score)@.corrects + old(score)@.fails + notes@.len() <= usize::MAX,
        old(score)@.score <= MAX_POINTS * old(score)@.corrects,
    ensures
        r.0@ == resolve(notes@, dt as int, input, old(score)@).kept,
        r.1@ == resolve(notes@, dt as int, input, old(score)@).hits,
        r.2@ == resolve(notes@, dt as int, input, old(score)@).misses,
        final(score)@ == resolve(notes@, dt as int, input, old(score)@).score,
        final(score)@.corrects + final(score)@.fails + r.0@.len() == old(score)@.corrects
            + old(score)@.fails + notes@.len(),
        final(score)@.score <= MAX_POINTS * final(score)@.corrects,
        forall|i: int| 0 <= i < r.0@.len() ==> (#[trigger] r.0@[i]).wf(),
{
    let mut kept: Vec<ActiveNote> = Vec::new();
    let mut hits: Vec<Hit> = Vec::new();
    let mut misses: Vec<Directions> = Vec::new();
    let mut left = input;
    let mut k: usize = 0;
    while k < notes.len()
        invariant
            k <= notes@.len(),
            old(score)@.corrects + old(score)@.fails + notes@.len() <= usize::MAX,
            resolve(notes@.take(k as int), dt as int, input, old(score)@) == (Resolution {
                kept: kept@,
                hits: hits@,
                misses: misses@,
                input: left,
                score: score@,
            }),
            score@.corrects + score@.fails + kept@.len() == old(score)@.corrects + old(score)@.fails + k,
            score@.score <= MAX_POINTS * score@.corrects,
            forall|i: int| 0 <= i < kept@.len() ==> (#[trigger] kept@[i]).wf(),
        decreases notes@.len() - k,
    {
        let n = notes[k];
        assert(notes@.take(k + 1).drop_last() =~= notes@.take(k as int));
        assert(notes@.take(k + 1).last() == n);
        let x = reach(n.speed, n.age, dt);
        if left.pressed(n.lane) && (TARGET_POSITION - THRESHOLD) as i128 <= x && x <= (TARGET_POSITION
            + THRESHOLD) as i128 {
            let points = score.increase_correct(TARGET_POSITION - x as i64);
            hits.push(Hit { lane: n.lane, points });
            left = left.released(n.lane);
        } else if x >= MISS_POSITION as i128 {
            score.increase_fails();
            misses.push(n.lane);
        } else {
            let v = n.speed.value();
            let ghost t = n.age as int + dt as int;
            assert(t < 4_000_000) by (nonlinear_arith)
                requires
                    v >= 200,
                    x == -400_000_000 + v * t,
                    x < 400_000_000,
            ;
            kept.push(ActiveNote { lane: n.lane, speed: n.speed, age: n.age + dt });
        }
        k += 1;
    }
    assert(notes@.take(k as int) =~= notes@);
    (kept, hits, misses)
}

impl FrameEvents {
    fn empty() -> (r: FrameEvents)
        ensures
            r@ == no_events(),
    {
        FrameEvents {
            activated: Vec::new(),
            hits: Vec::new(),
            misses: Vec::new(),
            song_started: false,
            recorded: Vec::new(),
        }
    }
}

impl Session {
    /// A session in the menu, with nothing loaded.
    pub fn new() -> (r: Session)
        ensures
            r@.wf(),
            r@ == (SessionView {
                mode: Mode::Menu,
                clock: 0,
                chart: Seq::empty(),
                head: 0,
                active: Seq::empty(),
                score: ScoreView { score: 0, corrects: 0, fails: 0 },
                recording: Seq::empty(),
                flushed: false,
            }),
    {
        Session {
            mode: Mode::Menu,
            clock: 0,
            chart: Chart::empty(),
            head: 0,
            active: Vec::new(),
            score: ScoreResource::new(),
            recording: Vec::new(),
            flushed: false,
        }
    }

    /// Leaves the menu to play `chart`: the whole chart is pending, nothing
    /// is in flight, the score is reset and the clock starts over.
    pub fn start_play(&mut self, chart: Chart) -> (r: Result<(), ModeError>)
        requires
            old(self)@.wf(),
        ensures
            final(self)@.wf(),
            r is Err <==> old(self)@.mode != Mode::Menu,
            r is Err ==> r == Err::<(), ModeError>(ModeError::NotInMenu) && final(self)@ == old(self)@,
            r is Ok ==> final(self)@ == (SessionView {
                mode: Mode::Play,
                clock: 0,
                chart: chart@,
                head: 0,
                active: Seq::empty(),
                score: ScoreView { score: 0, corrects: 0, fails: 0 },
                recording: Seq::empty(),
                flushed: false,
            }),
    {
        if self.mode != Mode::Menu {
            return Err(ModeError::NotInMenu);
        }
        let _ = chart.len();
        self.mode = Mode::Play;
        self.clock = 0;
        self.chart = chart;
        self.head = 0;
        self.active = Vec::new();
        self.score = ScoreResource::new();
        self.recording = Vec::new();
        self.flushed = false;
        Ok(())
    }

    /// Leaves the menu to record a new chart into an empty buffer; the clock
    /// starts over.
    pub fn start_authoring(&mut self) -> (r: Result<(), ModeError>)
        requires
            old(self)@.wf(),
        ensures
            final(self)@.wf(),
            r is Err <==> old(self)@.mode != Mode::Menu,
            r is Err ==> r == Err::<(), ModeError>(ModeError::NotInMenu) && final(self)@ == old(self)@,
            r is Ok ==> final(self)@ == (SessionView {
                mode: Mode::Author,
                clock: 0,
                chart: Seq::empty(),
                head: 0,
                active: Seq::empty(),
                score: ScoreView { score: 0, corrects: 0, fails: 0 },
                recording: Seq::empty(),
                flushed: false,
            }),
    {
        if self.mode != Mode::Menu {
            return Err(ModeError::NotInMenu);
        }
        self.mode = Mode::Author;
        self.clock = 0;
        self.chart = Chart::empty();
        self.head = 0;
        self.active = Vec::new();
        self.score = ScoreResource::new();
        self.recording = Vec::new();
        self.flushed = false;
        Ok(())
    }

    /// Runs one frame of `dt` microseconds in which the keys of `input` went
    /// down.
    pub fn tick(&mut self, dt: u64, input: LaneInput) -> (events: FrameEvents)
        requires
            old(self)@.wf(),
            old(self)@.clock + dt <= MAX_CLOCK_US,
        ensures
            final(self)@.wf(),
            (final(self)@, events@) == spec_tick(old(self)@, dt as int, input),
    {
        match self.mode {
            Mode::Menu => FrameEvents::empty(),
            Mode::Play => self.play_frame(dt, input),
            Mode::Author => self.author_frame(dt, input),
        }
    }

    fn play_frame(&mut self, dt: u64, input: LaneInput) -> (events: FrameEvents)
        requires
            old(self)@.wf(),
            old(self)@.mode == Mode::Play,
            old(self)@.clock + dt <= MAX_CLOCK_US,
        ensures
            final(self)@.wf(),
            (final(self)@, events@) == spec_tick(old(self)@, dt as int, input),
    {
        let ghost s = self@;
        let prev = self.clock;
        let clock = self.clock + dt;
        let now: i64 = clock as i64 - LEAD_IN_US;
        proof {
            lemma_due_end(s.chart, s.head, now as int);
        }
        let mut notes: Vec<ActiveNote> = Vec::new();
        std::mem::swap(&mut notes, &mut self.active);
        let mut activated: Vec<NoteEvent> = Vec::new();
        let n = self.chart.len();
        let mut head = self.head;
        while head < n && self.chart.get(head).spawn_time <= now
            invariant
                s.head <= head <= n,
                n == s.chart.len(),
                self.chart@ == s.chart,
                due_end(s.chart, head as int, now as int) == due_end(s.chart, s.head, now as int),
                activated@ == due_notes(s.chart, s.head, head as int),
                notes@ == s.active + activated@.map_values(|e: NoteEvent| spawned(e)),
                activated@.len() <= head - s.head,
            decreases n - head,
        {
            let e = self.chart.get(head);
            let ghost before = activated@;
            if e.spawn_time >= 0 {
                activated.push(e);
                notes.push(ActiveNote::spawn(e.lane, e.speed));
                assert(activated@.map_values(|e: NoteEvent| spawned(e)) =~= before.map_values(
                    |e: NoteEvent| spawned(e),
                ).push(spawned(e)));
                assert(notes@ =~= s.active + activated@.map_values(|e: NoteEvent| spawned(e)));
            }
            head = head + 1;
        }
        let (kept, hits, misses) = resolve_notes(&notes, dt, input, &mut self.score);
        self.active = kept;
        self.head = head;
        self.clock = clock;
        proof {
            let c = self@;
            assert forall|k: int|
                c.head <= k < c.chart.len() && #[trigger] c.chart[k].spawn_time >= 0
                    implies c.chart[k].spawn_time > c.song_time() by {
                assert(c.chart[c.head].spawn_time <= c.chart[k].spawn_time);
            }
        }
        FrameEvents {
            activated,
            hits,
            misses,
            song_started: prev < LEAD_IN_US as u64 && LEAD_IN_US as u64 <= clock,
            recorded: Vec::new(),
        }
    }

    fn author_frame(&mut self, dt: u64, input: LaneInput) -> (events: FrameEvents)
        requires
            old(self)@.wf(),
            old(self)@.mode == Mode::Author,
            old(self)@.clock + dt <= MAX_CLOCK_US,
        ensures
            final(self)@.wf(),
            (final(self)@, events@) == spec_tick(old(self)@, dt as int, input),
    {
        let ghost s = self@;
        let clock = self.clock + dt;
        let t = clock as i64;
        let mut recorded: Vec<NoteEvent> = Vec::new();
        if input.up {
            recorded.push(NoteEvent { spawn_time: t, lane: Directions::Up, speed: Speed::Slow });
        }
        if input.down {
            recorded.push(NoteEvent { spawn_time: t, lane: Directions::Down, speed: Speed::Slow });
        }
        if input.left {
            recorded.push(NoteEvent { spawn_time: t, lane: Directions::Left, speed: Speed::Slow });
        }
        if input.right {
            recorded.push(NoteEvent { spawn_time: t, lane: Directions::Right, speed: Speed::Slow });
        }
        assert(recorded@ =~= press_events(input, clock as int));
        let mut i: usize = 0;
        while i < recorded.len()
            invariant
                i <= recorded@.len(),
                recorded@ == press_events(input, clock as int),
                forall|j: int| 0 <= j < recorded@.len() ==> (#[trigger] recorded@[j]).spawn_time == clock,
                self.recording@ == s.recording + recorded@.take(i as int),
                self.mode == s.mode,
                self.clock == s.clock,
                self.chart@ == s.chart,
                self.head == s.head,
                self.active@ == s.active,
                self.score@ == s.score,
                self.flushed == s.flushed,
            decreases recorded@.len() - i,
        {
            self.recording.push(recorded[i]);
            assert(recorded@.take(i + 1) =~= recorded@.take(i as int).push(recorded@[i as int]));
            i += 1;
        }
        assert(recorded@.take(i as int) =~= recorded@);
        self.clock = clock;
        proof {
            let r = self@.recording;
            assert forall|a: int, b: int| 0 <= a < b < r.len() implies r[a].spawn_time
                <= r[b].spawn_time by {
                if b >= s.recording.len() {
                    assert(r[b] == recorded@[b - s.recording.len()]);
                    if a < s.recording.len() {
                        assert(r[a] == s.recording[a]);
                    } else {
                        assert(r[a] == recorded@[a - s.recording.len()]);
                    }
                } else {
                    assert(r[a] == s.recording[a]);
                    assert(r[b] == s.recording[b]);
                }
            }
            assert forall|j: int| 0 <= j < r.len() implies (#[trigger] r[j]).spawn_time <= clock by {
                if j >= s.recording.len() {
                    assert(r[j] == recorded@[j - s.recording.len()]);
                } else {
                    assert(r[j] == s.recording[j]);
                }
            }
        }
        FrameEvents {
            activated: Vec::new(),
            hits: Vec::new(),
            misses: Vec::new(),
            song_started: false,
            recorded,
        }
    }

    /// Hands out the recorder's buffer as a chart, once per authoring
    /// session; `None` outside authoring or once it was handed out.
    pub fn take_recording(&mut self) -> (r: Option<Chart>)
        requires
            old(self)@.wf(),
        ensures
            final(self)@.wf(),
            r is Some <==> old(self)@.mode == Mode::Author && !old(self)@.flushed,
            r is Some ==> r->Some_0@ == old(self)@.recording && final(self)@ == (SessionView {
                flushed: true,
                ..old(self)@
            }),
            r is None ==> final(self)@ == old(self)@,
    {
        if self.mode != Mode::Author || self.flushed {
            return None;
        }
        let mut notes: Vec<NoteEvent> = Vec::new();
        let mut i: usize = 0;
        while i < self.recording.len()
            invariant
                i <= self.recording@.len(),
                notes@ == self.recording@.take(i as int),
            decreases self.recording@.len() - i,
        {
            notes.push(self.recording[i]);
            assert(self.recording@.take(i + 1) =~= self.recording@.take(i as int).push(
                self.recording@[i as int],
            ));
            i += 1;
        }
        assert(notes@ =~= self.recording@);
        match Chart::new(notes) {
            Ok(c) => {
                self.flushed = true;
                Some(c)
            },
            Err(_) => None,
        }
    }

    /// The running mode.
    pub fn mode(&self) -> (r: Mode)
        ensures
            r == self@.mode,
    {
        self.mode
    }

    /// Microseconds since the current mode was entered.
    pub fn elapsed_us(&self) -> (r: u64)
        ensures
            r == self@.clock,
    {
        self.clock
    }

    /// Song time, in microseconds; negative during the lead-in.
    pub fn song_time_us(&self) -> (r: i64)
        requires
            self@.wf(),
        ensures
            r == self@.song_time(),
    {
        self.clock as i64 - LEAD_IN_US
    }

    /// Song time to show, once the song has started.
    pub fn shown_song_time_us(&self) -> (r: Option<i64>)
        requires
            self@.wf(),
        ensures
            r is Some <==> self@.song_time() >= 0,
            r is Some ==> r->Some_0 == self@.song_time(),
    {
        let t = self.song_time_us();
        if t < 0 {
            None
        } else {
            Some(t)
        }
    }

    /// The score so far.
    pub fn score(&self) -> (r: ScoreResource)
        ensures
            r@ == self@.score,
    {
        self.score
    }

    /// The notes in flight, oldest first.
    pub fn active_notes(&self) -> (r: &Vec<ActiveNote>)
        ensures
            r@ == self@.active,
    {
        &self.active
    }

    /// Number of chart notes not yet reached by the scheduler.
    pub fn pending_len(&self) -> (r: usize)
        requires
            self@.wf(),
        ensures
            r == self@.pending().len(),
    {
        self.chart.len() - self.head
    }

    /// The head of the pending queue, if any.
    pub fn next_pending(&self) -> (r: Option<NoteEvent>)
        requires
            self@.wf(),
        ensures
            r is Some <==> self@.pending().len() > 0,
            r is Some ==> r->Some_0 == self@.pending()[0],
    {
        if self.head < self.chart.len() {
            Some(self.chart.get(self.head))
        } else {
            None
        }
    }

    /// The recorder's buffer.
    pub fn recording(&self) -> (r: &Vec<NoteEvent>)
        ensures
            r@ == self@.recording,
    {
        &self.recording
    }
}

} // verus!
