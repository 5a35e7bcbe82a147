use vstd::prelude::*;
use vstd::string::*;
use crate::lane::{
    Directions, Speed, spec_direction_name, spec_parse_direction, spec_parse_speed,
    spec_speed_name,
};

verus! {

/// One timed lane event of a chart.
#[derive(Clone, Copy, Debug, PartialEq, Eq, Structural)]
pub struct NoteEvent {
    /// Song time, in microseconds, at which the note appears.
    pub spawn_time: i64,
    pub lane: Directions,
    pub speed: Speed,
}

/// One record of a chart file, before its names are read.
#[derive(Clone, Debug)]
pub struct ChartRecord {
    pub time_us: i64,
    pub speed: String,
    pub direction: String,
}

/// Why a chart could not be loaded.
#[derive(Clone, Copy, Debug, PartialEq, Eq, Structural)]
pub enum ChartError {
    /// The record at `index` names no speed tier.
    UnknownSpeed { index: usize },
    /// The record at `index` names no lane.
    UnknownDirection { index: usize },
    /// The note at `index` comes before the note that precedes it.
    Unsorted { index: usize },
}

/// Times never decrease along `s`.
pub open spec fn sorted_by_time(s: Seq<NoteEvent>) -> bool {
    forall|i: int, j: int| 0 <= i < j < s.len() ==> s[i].spawn_time <= s[j].spawn_time
}

/// The note that a record describes, if its names are known.
pub open spec fn record_note(r: ChartRecord) -> Option<NoteEvent> {
    match (spec_parse_speed(r.speed@), spec_parse_direction(r.direction@)) {
        (Some(s), Some(d)) => Some(NoteEvent { spawn_time: r.time_us, lane: d, speed: s }),
        _ => None,
    }
}

/// The error that loading `rs` gives for its record at `i`, the first bad one.
pub open spec fn record_error(rs: Seq<ChartRecord>, i: int) -> ChartError {
    if spec_parse_speed(rs[i].speed@) is None {
        ChartError::UnknownSpeed { index: i as usize }
    } else {
        ChartError::UnknownDirection { index: i as usize }
    }
}

/// The record that a chart file holds for a note.
pub open spec fn note_record_matches(r: ChartRecord, e: NoteEvent) -> bool {
    &&& r.time_us == e.spawn_time
    &&& r.speed@ == spec_speed_name(e.speed)
    &&& r.direction@ == spec_direction_name(e.lane)
}

/// An ordered sequence of notes, never decreasing in time.
pub struct Chart {
    notes: Vec<NoteEvent>,
}

impl View for Chart {
    type V = Seq<NoteEvent>;

    closed spec fn view(&self) -> Seq<NoteEvent> {
        self.notes@
    }
}

impl NoteEvent {
    /// Reads one record of a chart file.
    pub fn from_record(r: &ChartRecord) -> (res: Result<NoteEvent, ChartError>)
        ensures
            res is Ok <==> record_note(*r) is Some,
            res is Ok ==> Some(res->Ok_0) == record_note(*r),
            res is Err ==> res->Err_0 == record_error(seq![*r], 0),
    {
        let speed = Speed::parse(r.speed.as_str());
        let lane = Directions::parse(r.direction.as_str());
        match (speed, lane) {
            (Some(s), Some(d)) => Ok(NoteEvent { spawn_time: r.time_us, lane: d, speed: s }),
            (None, _) => Err(ChartError::UnknownSpeed { index: 0 }),
            (Some(_), None) => Err(ChartError::UnknownDirection { index: 0 }),
        }
    }

    /// The record under which a chart file stores this note.
    pub fn to_record(&self) -> (r: ChartRecord)
        ensures
            note_record_matches(r, *self),
    {
        ChartRecord {
            time_us: self.spawn_time,
            speed: String::from_str(self.speed.name()),
            direction: String::from_str(self.lane.name()),
        }
    }
}

impl Chart {
    #[verifier::type_invariant]
    spec fn inv(&self) -> bool {
        sorted_by_time(self.notes@)
    }

    /// The chart without notes.
    pub fn empty() -> (c: Chart)
        ensures
            c@ == Seq::<NoteEvent>::empty(),
    {
        Chart { notes: Vec::new() }
    }

    /// Makes a chart of `notes`, which must be in time order: a chart out
    /// of order is refused, never repaired.
    pub fn new(notes: Vec<NoteEvent>) -> (res: Result<Chart, ChartError>)
        ensures
            res is Ok <==> sorted_by_time(notes@),
            res is Ok ==> res->Ok_0@ == notes@,
            res is Err ==> (res->Err_0 matches ChartError::Unsorted { index } && Chart::new_error(
                notes@,
                index,
            )),
    {
        let n = notes.len();
        if n == 0 {
            return Ok(Chart { notes });
        }
        let mut i: usize = 1;
        assert(notes@.take(1).len() == 1);
        while i < n
            invariant
                n == notes@.len(),
                1 <= i <= n,
                sorted_by_time(notes@.take(i as int)),
            decreases n - i,
        {
            if notes[i].spawn_time < notes[i - 1].spawn_time {
                return Err(ChartError::Unsorted { index: i });
            }
            assert(sorted_by_time(notes@.take(i + 1))) by {
                let s = notes@.take(i + 1);
                assert forall|a: int, b: int| 0 <= a < b < s.len() implies s[a].spawn_time
                    <= s[b].spawn_time by {
                    if b < i {
                        assert(notes@.take(i as int)[a] == s[a]);
                        assert(notes@.take(i as int)[b] == s[b]);
                    } else if a < i - 1 {
                        assert(notes@.take(i as int)[a] == s[a]);
                        assert(notes@.take(i as int)[i - 1] == s[i - 1]);
                    }
                }
            }
            i += 1;
        }
        assert(notes@.take(n as int) =~= notes@);
        Ok(Chart { notes })
    }

    /// Reads the records of a chart file into a chart: every name must be
    /// known and the times in order.
    pub fn from_records(rs: &Vec<ChartRecord>) -> (res: Result<Chart, ChartError>)
        ensures
            res is Ok <==> {
                &&& forall|i: int| 0 <= i < rs@.len() ==> (#[trigger] record_note(rs@[i])) is Some
                &&& sorted_by_time(rs@.map_values(|r: ChartRecord| record_note(r)->Some_0))
            },
            res is Ok ==> res->Ok_0@ == rs@.map_values(|r: ChartRecord| record_note(r)->Some_0),
            res is Err ==> match res->Err_0 {
                ChartError::Unsorted { index } => {
                    &&& forall|i: int| 0 <= i < rs@.len() ==> (#[trigger] record_note(rs@[i])) is Some
                    &&& Chart::new_error(rs@.map_values(|r: ChartRecord| record_note(r)->Some_0), index)
                },
                _ => exists|k: int| {
                    &&& 0 <= k < rs@.len()
                    &&& record_note(#[trigger] rs@[k]) is None
                    &&& (forall|i: int| 0 <= i < k ==> (#[trigger] record_note(rs@[i])) is Some)
                    &&& res->Err_0 == record_error(rs@, k)
                },
            },
    {
        let mut notes: Vec<NoteEvent> = Vec::new();
        let mut i: usize = 0;
        while i < rs.len()
            invariant
                i <= rs@.len(),
                notes@.len() == i,
                forall|k: int| 0 <= k < i ==> (#[trigger] record_note(rs@[k])) is Some,
                forall|k: int| 0 <= k < i ==> notes@[k] == record_note(#[trigger] rs@[k])->Some_0,
            decreases rs@.len() - i,
        {
            match NoteEvent::from_record(&rs[i]) {
                Ok(e) => notes.push(e),
                Err(err) => {
                    let e = match err {
                        ChartError::UnknownSpeed { .. } => ChartError::UnknownSpeed { index: i },
                        _ => ChartError::UnknownDirection { index: i },
                    };
                    assert(record_note(rs@[i as int]) is None);
                    return Err(e);
                },
            }
            i += 1;
        }
        assert(notes@ =~= rs@.map_values(|r: ChartRecord| record_note(r)->Some_0));
        Chart::new(notes)
    }

    /// The error that `new` gives for notes `s` out of order at `index`.
    pub open spec fn new_error(s: Seq<NoteEvent>, index: usize) -> bool {
        &&& 0 < index < s.len()
        &&& s[index as int].spawn_time < s[index - 1].spawn_time
        &&& sorted_by_time(s.take(index as int))
    }

    /// The records under which a chart file stores this chart.
    pub fn to_records(&self) -> (rs: Vec<ChartRecord>)
        ensures
            rs@.len() == self@.len(),
            forall|i: int| 0 <= i < rs@.len() ==> note_record_matches(#[trigger] rs@[i], self@[i]),
    {
        let mut rs: Vec<ChartRecord> = Vec::new();
        let mut i: usize = 0;
        while i < self.notes.len()
            invariant
                i <= self@.len(),
                self@ == self.notes@,
                rs@.len() == i,
                forall|k: int| 0 <= k < i ==> note_record_matches(#[trigger] rs@[k], self@[k]),
            decreases self@.len() - i,
        {
            rs.push(self.notes[i].to_record());
            i += 1;
        }
        rs
    }

    /// Number of notes.
    pub fn len(&self) -> (r: usize)
        ensures
            r == self@.len(),
            sorted_by_time(self@),
    {
        proof {
            use_type_invariant(self);
        }
        self.notes.len()
    }

    /// The note at `i`.
    pub fn get(&self, i: usize) -> (e: NoteEvent)
        requires
            i < self@.len(),
        ensures
            e == self@[i as int],
    {
        self.notes[i]
    }
}

} // verus!
