use graphic_playlist::entry::{highlight_of, label_from, Entry, Highlight};

#[test]
fn label_is_what_follows_the_last_separator() {
    assert_eq!(label_from("music/album/track.ogg"), "track.ogg");
    assert_eq!(label_from("/track.ogg"), "track.ogg");
    assert_eq!(label_from("a/b"), "b");
}

#[test]
fn label_of_a_source_without_separator_is_the_source() {
    assert_eq!(label_from("track.ogg"), "track.ogg");
    assert_eq!(label_from(""), "");
}

#[test]
fn label_of_a_source_that_ends_in_a_separator_is_empty() {
    assert_eq!(label_from("music/album/"), "");
    assert_eq!(label_from("/"), "");
}

#[test]
fn label_counts_characters_not_bytes() {
    assert_eq!(label_from("música/canción.ogg"), "canción.ogg");
    assert_eq!(label_from("últimas/"), "");
    assert_eq!(label_from("añoñé"), "añoñé");
}

#[test]
fn new_entry_is_labelled_and_plain() {
    let entry = Entry::new(String::from("music/track.ogg"));
    assert_eq!(entry.source, "music/track.ogg");
    assert_eq!(entry.label, "track.ogg");
    assert_eq!(entry.highlight, Highlight::Default);
    assert_eq!(entry.x, 0);
    assert_eq!(entry.y, 0);
}

#[test]
fn highlight_of_the_playing_entry_is_current() {
    assert_eq!(highlight_of(3, 3, None), Highlight::Current);
    assert_eq!(highlight_of(3, 3, Some(5)), Highlight::Current);
    assert_eq!(highlight_of(3, 3, Some(3)), Highlight::Current);
}

#[test]
fn highlight_of_the_hovered_entry_depends_on_the_distance_to_the_playing_one() {
    assert_eq!(highlight_of(5, 3, Some(5)), Highlight::Hovered);
    assert_eq!(highlight_of(0, 3, Some(0)), Highlight::Hovered);
    assert_eq!(highlight_of(4, 3, Some(4)), Highlight::HoveredAdjacent);
    assert_eq!(highlight_of(2, 3, Some(2)), Highlight::HoveredAdjacent);
    assert_eq!(highlight_of(1, 0, Some(1)), Highlight::HoveredAdjacent);
}

#[test]
fn highlight_of_any_other_entry_is_default() {
    assert_eq!(highlight_of(1, 3, None), Highlight::Default);
    assert_eq!(highlight_of(1, 3, Some(2)), Highlight::Default);
    assert_eq!(highlight_of(4, 3, Some(2)), Highlight::Default);
}
