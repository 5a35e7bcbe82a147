use vstd::prelude::*;
use vstd::string::*;

verus! {

/// One of the four lanes; each has its own row on screen and its own key.
#[derive(Clone, Copy, Debug, PartialEq, Eq, Structural)]
pub enum Directions {
    Up,
    Down,
    Left,
    Right,
}

/// Speed tier of a note.
#[derive(Clone, Copy, Debug, PartialEq, Eq, Structural)]
pub enum Speed {
    Slow,
    Medium,
    Fast,
}

pub open spec fn spec_velocity(s: Speed) -> int {
    match s {
        Speed::Slow => 200,
        Speed::Medium => 240,
        Speed::Fast => 300,
    }
}

pub open spec fn spec_multiplier(s: Speed) -> int {
    match s {
        Speed::Slow => 100,
        Speed::Medium => 120,
        Speed::Fast => 150,
    }
}

pub open spec fn spec_lane_y(d: Directions) -> int {
    match d {
        Directions::Up => 150_000_000,
        Directions::Down => 50_000_000,
        Directions::Left => -50_000_000,
        Directions::Right => -150_000_000,
    }
}

pub open spec fn spec_lane_rotation(d: Directions) -> int {
    match d {
        Directions::Up => 1_570_796,
        Directions::Down => -1_570_796,
        Directions::Left => 3_141_593,
        Directions::Right => 0,
    }
}

pub open spec fn spec_direction_name(d: Directions) -> Seq<char> {
    match d {
        Directions::Up => "Up"@,
        Directions::Down => "Down"@,
        Directions::Left => "Left"@,
        Directions::Right => "Right"@,
    }
}

pub open spec fn spec_speed_name(s: Speed) -> Seq<char> {
    match s {
        Speed::Slow => "Slow"@,
        Speed::Medium => "Medium"@,
        Speed::Fast => "Fast"@,
    }
}

/// The lane whose name is `s`, if any.
pub open spec fn spec_parse_direction(s: Seq<char>) -> Option<Directions> {
    if s == "Up"@ {
        Some(Directions::Up)
    } else if s == "Down"@ {
        Some(Directions::Down)
    } else if s == "Left"@ {
        Some(Directions::Left)
    } else if s == "Right"@ {
        Some(Directions::Right)
    } else {
        None
    }
}

/// The speed tier whose name is `s`, if any.
pub open spec fn spec_parse_speed(s: Seq<char>) -> Option<Speed> {
    if s == "Slow"@ {
        Some(Speed::Slow)
    } else if s == "Medium"@ {
        Some(Speed::Medium)
    } else if s == "Fast"@ {
        Some(Speed::Fast)
    } else {
        None
    }
}

impl Speed {
    /// Horizontal velocity, in micro-pixels per microsecond (pixels per second).
    pub fn value(&self) -> (r: i64)
        ensures
            r == spec_velocity(*self),
            200 <= r <= 300,
    {
        match self {
            Speed::Slow => 200,
            Speed::Medium => 240,
            Speed::Fast => 300,
        }
    }

    /// Spin multiplier of a falling note, in hundredths.
    pub fn multiplier(&self) -> (r: i64)
        ensures
            r == spec_multiplier(*self),
            100 <= r <= 150,
    {
        match self {
            Speed::Slow => 100,
            Speed::Medium => 120,
            Speed::Fast => 150,
        }
    }

    /// The name under which a chart file stores the tier.
    pub fn name(&self) -> (r: &'static str)
        ensures
            r@ == spec_speed_name(*self),
    {
        match self {
            Speed::Slow => "Slow",
            Speed::Medium => "Medium",
            Speed::Fast => "Fast",
        }
    }

    /// The tier named `s`, or `None` where `s` names none.
    pub fn parse(s: &str) -> (r: Option<Speed>)
        ensures
            r == spec_parse_speed(s@),
    {
        if same_text(s, "Slow") {
            Some(Speed::Slow)
        } else if same_text(s, "Medium") {
            Some(Speed::Medium)
        } else if same_text(s, "Fast") {
            Some(Speed::Fast)
        } else {
            None
        }
    }
}

impl Directions {
    /// Vertical coordinate (micro-pixels) of the lane's row.
    pub fn y(&self) -> (r: i64)
        ensures
            r == spec_lane_y(*self),
    {
        match self {
            Directions::Up => 150_000_000,
            Directions::Down => 50_000_000,
            Directions::Left => -50_000_000,
            Directions::Right => -150_000_000,
        }
    }

    /// Orientation of the lane's notes and marker, in micro-radians.
    pub fn rotation(&self) -> (r: i64)
        ensures
            r == spec_lane_rotation(*self),
    {
        match self {
            Directions::Up => 1_570_796,
            Directions::Down => -1_570_796,
            Directions::Left => 3_141_593,
            Directions::Right => 0,
        }
    }

    /// The name under which a chart file stores the lane.
    pub fn name(&self) -> (r: &'static str)
        ensures
            r@ == spec_direction_name(*self),
    {
        match self {
            Directions::Up => "Up",
            Directions::Down => "Down",
            Directions::Left => "Left",
            Directions::Right => "Right",
        }
    }

    /// The lane named `s`, or `None` where `s` names none.
    pub fn parse(s: &str) -> (r: Option<Directions>)
        ensures
            r == spec_parse_direction(s@),
    {
        if same_text(s, "Up") {
            Some(Directions::Up)
        } else if same_text(s, "Down") {
            Some(Directions::Down)
        } else if same_text(s, "Left") {
            Some(Directions::Left)
        } else if same_text(s, "Right") {
            Some(Directions::Right)
        } else {
            None
        }
    }
}

/// Whether two strings hold the same characters.
fn same_text(a: &str, b: &str) -> (r: bool)
    ensures
        r == (a@ == b@),
{
    let n = a.unicode_len();
    if n != b.unicode_len() {
        return false;
    }
    let mut i: usize = 0;
    while i < n
        invariant
            n == a@.len(),
            n == b@.len(),
            i <= n,
            forall|k: int| 0 <= k < i ==> a@[k] == b@[k],
        decreases n - i,
    {
        if a.get_char(i) != b.get_char(i) {
            return false;
        }
        i += 1;
    }
    assert(a@ =~= b@);
    true
}

/// Every lane's name reads back as that lane.
pub proof fn lemma_direction_name_round_trip(d: Directions)
    ensures
        spec_parse_direction(spec_direction_name(d)) == Some(d),
{
    reveal_strlit("Up");
    reveal_strlit("Down");
    reveal_strlit("Left");
    reveal_strlit("Right");
    assert("Up"@.len() != "Down"@.len());
    assert("Up"@.len() != "Left"@.len());
    assert("Up"@.len() != "Right"@.len());
    assert("Down"@[0] != "Left"@[0]);
    assert("Down"@.len() != "Right"@.len());
    assert("Left"@.len() != "Right"@.len());
}

/// Every tier's name reads back as that tier.
pub proof fn lemma_speed_name_round_trip(s: Speed)
    ensures
        spec_parse_speed(spec_speed_name(s)) == Some(s),
{
    reveal_strlit("Slow");
    reveal_strlit("Medium");
    reveal_strlit("Fast");
    assert("Slow"@.len() != "Medium"@.len());
    assert("Slow"@[0] != "Fast"@[0]);
    assert("Medium"@.len() != "Fast"@.len());
}

} // verus!
