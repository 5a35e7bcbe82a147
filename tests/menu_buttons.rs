use rhythm::menu::{menu_buttons, MenuButton};

#[test]
fn one_button_per_song_then_authoring() {
    let songs = vec!["alpha".to_string(), "beta".to_string()];
    let b = menu_buttons(&songs);
    assert_eq!(b.len(), 3);
    assert_eq!(b[0].name(), "Play song: alpha");
    assert_eq!(b[1].name(), "Play song: beta");
    assert_eq!(b[2].name(), "Make map");
    assert_eq!(b[1].chart_file(), Some("beta.toml".to_string()));
    assert_eq!(b[2].chart_file(), None);
}

#[test]
fn no_songs_leaves_authoring_only() {
    let b = menu_buttons(&vec![]);
    assert_eq!(b.len(), 1);
    assert!(matches!(b[0], MenuButton::MakeMap));
}
