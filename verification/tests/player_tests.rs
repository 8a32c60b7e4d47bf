use sympho::media::{Media, TrackTags};
use sympho::player::{display_millis, next_index, Controller, Transport};

fn track(path: &str, title: Option<&str>, artist: Option<&str>) -> Media<String> {
    let tags = TrackTags { title: title.map(|s| s.to_string()), artist: artist.map(|s| s.to_string()) };
    Media::new(path.to_string(), &Some("mp3".to_string()), tags)
}

fn three_tracks() -> Vec<Media<String>> {
    vec![
        track("1.mp3", Some("One"), Some("A")),
        track("2.mp3", None, Some("B")),
        track("3.mp3", Some("Three"), None),
    ]
}

#[test]
fn next_index_moves_forward_and_wraps_only_with_repeat() {
    assert_eq!(next_index(0, 3, false), Some(1));
    assert_eq!(next_index(1, 3, true), Some(2));
    assert_eq!(next_index(2, 3, false), None);
    assert_eq!(next_index(2, 3, true), Some(0));
    assert_eq!(next_index(5, 3, true), None);
    assert_eq!(next_index(5, 3, false), None);
    assert_eq!(next_index(0, 1, false), None);
    assert_eq!(next_index(0, 1, true), Some(0));
}

#[test]
fn display_millis_keeps_low_bits() {
    assert_eq!(display_millis(0), 0);
    assert_eq!(display_millis(183_250), 183_250);
    assert_eq!(display_millis((1u128 << 32) + 7), 7);
    assert_eq!(display_millis(0x8000_0000), i32::MIN);
}

#[test]
fn new_controller_is_idle() {
    let c: Controller<String> = Controller::new();
    assert_eq!(c.len(), 0);
    assert_eq!(c.current(), 0);
    assert!(!c.is_playing());
    assert!(!c.file_selected());
    assert_eq!(c.resume_flag(), 0);
}

#[test]
fn toggle_play_follows_the_player() {
    let mut c: Controller<String> = Controller::new();
    assert_eq!(c.toggle_play(true, false), None);
    assert!(!c.is_playing());
    assert_eq!(c.toggle_play(true, true), None);
    assert_eq!(c.toggle_play(false, true), Some(Transport::Play));
    assert!(c.is_playing());
    assert_eq!(c.toggle_play(false, false), Some(Transport::Pause));
    assert!(!c.is_playing());
}

#[test]
fn two_toggles_restore_the_state() {
    let mut c: Controller<String> = Controller::new();
    let mut paused = true;
    let before = c.is_playing();
    for _ in 0..2 {
        match c.toggle_play(false, paused) {
            Some(Transport::Play) => paused = false,
            Some(Transport::Pause) => paused = true,
            None => unreachable!(),
        }
        assert_eq!(c.is_playing(), !paused);
    }
    assert!(paused);
    assert_eq!(c.is_playing(), before);
}

#[test]
fn tick_shows_position_only_while_playing() {
    let mut c: Controller<String> = Controller::new();
    assert_eq!(c.tick(1500), None);
    c.toggle_play(false, true);
    assert_eq!(c.tick(1500), Some(1500));
}

#[test]
fn load_folder_makes_a_fresh_row_per_track() {
    let mut c: Controller<String> = Controller::new();
    c.load_folder(three_tracks());
    assert_eq!(c.len(), 3);
    assert_eq!(c.row(0).title, "One");
    assert_eq!(c.row(1).title, "Unknown Title");
    assert_eq!(c.row(1).artist, "B");
    assert_eq!(c.row(2).artist, "Unknown Artist");
    for i in 0..3 {
        assert!(!c.row(i).playing);
    }
    assert_eq!(c.media(2).path(), "3.mp3");
    assert!(!c.is_playing());
}

#[test]
fn play_media_marks_row_and_starts() {
    let mut c: Controller<String> = Controller::new();
    c.load_folder(three_tracks());
    let labels = c.play_media(1);
    assert_eq!(labels.title, "UNKNOWN TITLE");
    assert_eq!(labels.artist, "B");
    assert_eq!(c.current(), 1);
    assert!(c.row(1).playing);
    assert!(!c.row(0).playing);
    assert_eq!(c.row(1).title, "Unknown Title");
    assert!(c.is_playing());
    assert!(c.file_selected());
}

#[test]
fn load_next_plays_the_following_track() {
    let mut c: Controller<String> = Controller::new();
    c.load_folder(three_tracks());
    c.play_media(1);
    let (i, labels) = c.load_next(false).expect("a next track");
    assert_eq!(i, 2);
    assert_eq!(labels.title, "Three");
    assert_eq!(labels.artist, "UNKNOWN ARTIST");
    assert_eq!(c.current(), 1);
    assert!(!c.row(2).playing);
}

#[test]
fn load_next_after_last_track() {
    let mut c: Controller<String> = Controller::new();
    c.load_folder(three_tracks());
    c.play_media(2);
    c.toggle_play(false, false);
    assert!(!c.is_playing());
    assert!(c.load_next(false).is_none());
    assert!(!c.is_playing());
    let (i, labels) = c.load_next(true).expect("the first track");
    assert_eq!(i, 0);
    assert_eq!(labels.title, "One");
    assert!(c.is_playing());
}

#[test]
fn select_file_shows_labels_without_playing() {
    let mut c: Controller<String> = Controller::new();
    let m = track("x.mp3", None, None);
    let labels = c.select_file(&m);
    assert_eq!(labels.title, "UNKNOWN TITLE");
    assert_eq!(labels.artist, "UNKNOWN ARTIST");
    assert!(c.file_selected());
    assert!(!c.is_playing());
    assert_eq!(c.len(), 0);
}

#[test]
fn seek_passes_time_and_bumps_flag() {
    let mut c: Controller<String> = Controller::new();
    assert_eq!(c.seek(42_000), 42_000u64);
    assert_eq!(c.resume_flag(), 1);
    assert_eq!(c.seek(0), 0u64);
    assert_eq!(c.resume_flag(), 2);
}
