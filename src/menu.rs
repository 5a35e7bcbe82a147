use vstd::prelude::*;
use vstd::string::*;

verus! {

/// A button of the main menu.
#[derive(Clone, Debug)]
pub enum MenuButton {
    /// Starts an authoring session.
    MakeMap,
    /// Plays the song of this name.
    PlaySong(String),
}

pub open spec fn spec_button_name(b: MenuButton) -> Seq<char> {
    match b {
        MenuButton::MakeMap => "Make map"@,
        MenuButton::PlaySong(song) => "Play song: "@ + song@,
    }
}

impl MenuButton {
    /// The button's label.
    pub fn name(&self) -> (r: String)
        ensures
            r@ == spec_button_name(*self),
    {
        match self {
            MenuButton::MakeMap => String::from_str("Make map"),
            MenuButton::PlaySong(song) => {
                let mut s = String::from_str("Play song: ");
                s.append(song.as_str());
                s
            },
        }
    }

    /// Name of the chart file of the song that the button plays.
    pub fn chart_file(&self) -> (r: Option<String>)
        ensures
            r is Some <==> *self is PlaySong,
            r is Some ==> r->Some_0@ == self->PlaySong_0@ + ".toml"@,
    {
        match self {
            MenuButton::MakeMap => None,
            MenuButton::PlaySong(song) => {
                let mut s = song.clone();
                s.append(".toml");
                Some(s)
            },
        }
    }
}

/// The buttons of the main menu: one per song, in the order given, then the
/// one that starts authoring.
pub fn menu_buttons(songs: &Vec<String>) -> (r: Vec<MenuButton>)
    ensures
        r@.len() == songs@.len() + 1,
        forall|i: int|
            0 <= i < songs@.len() ==> (#[trigger] r@[i] is PlaySong && r@[i]->PlaySong_0@ == songs@[i]@),
        r@[songs@.len() as int] is MakeMap,
{
    let mut r: Vec<MenuButton> = Vec::new();
    let mut i: usize = 0;
    while i < songs.len()
        invariant
            i <= songs@.len(),
            r@.len() == i,
            forall|k: int| 0 <= k < i ==> (#[trigger] r@[k] is PlaySong && r@[k]->PlaySong_0@ == songs@[k]@),
        decreases songs@.len() - i,
    {
        r.push(MenuButton::PlaySong(songs[i].clone()));
        i += 1;
    }
    r.push(MenuButton::MakeMap);
    r
}

} // verus!
