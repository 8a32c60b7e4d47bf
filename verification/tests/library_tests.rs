use sympho::library::{build_queue, is_supported, Entry};
use sympho::media::{reads_tags, Media, TrackTags};

fn file(path: &str) -> Entry<String> {
    let ext = std::path::Path::new(path)
        .extension()
        .and_then(|e| e.to_str())
        .map(|e| e.to_string());
    Entry::File { path: path.to_string(), ext }
}

fn some(s: &str) -> Option<String> {
    Some(s.to_string())
}

#[test]
fn supported_types_are_the_four_audio_formats() {
    for ext in ["ogg", "wav", "mp3", "flac"] {
        assert!(is_supported(&some(ext)), "{ext}");
    }
    for ext in ["mp4", "MP3", "txt", "", "flac "] {
        assert!(!is_supported(&some(ext)), "{ext}");
    }
    assert!(!is_supported(&None));
}

#[test]
fn tags_are_read_from_mp3_mp4_and_flac() {
    for ext in ["mp3", "mp4", "flac"] {
        assert!(reads_tags(&some(ext)), "{ext}");
    }
    for ext in ["ogg", "wav", "Mp3", "txt"] {
        assert!(!reads_tags(&some(ext)), "{ext}");
    }
    assert!(!reads_tags(&None));
}

#[test]
fn queue_keeps_supported_files_in_walk_order() {
    let tree = vec![
        file("/music/a.mp3"),
        file("/music/cover.jpg"),
        Entry::Dir {
            entries: vec![file("/music/album/1.flac"), file("/music/album/notes"), file("/music/album/2.ogg")],
        },
        file("/music/b.wav"),
        file("/music/c.mp4"),
        Entry::Dir { entries: vec![] },
    ];
    let queue = build_queue(tree);
    assert_eq!(
        queue,
        vec![
            "/music/a.mp3".to_string(),
            "/music/album/1.flac".to_string(),
            "/music/album/2.ogg".to_string(),
            "/music/b.wav".to_string(),
        ]
    );
}

#[test]
fn queue_of_empty_folder_is_empty() {
    let queue: Vec<String> = build_queue(vec![]);
    assert!(queue.is_empty());
    let queue: Vec<String> = build_queue(vec![Entry::Dir { entries: vec![Entry::Dir { entries: vec![] }] }]);
    assert!(queue.is_empty());
}

#[test]
fn queue_of_nested_folders_flattens_in_place() {
    let tree = vec![
        Entry::Dir {
            entries: vec![Entry::Dir { entries: vec![file("x/y/deep.ogg")] }, file("x/mid.mp3")],
        },
        file("top.flac"),
    ];
    assert_eq!(build_queue(tree), vec!["x/y/deep.ogg".to_string(), "x/mid.mp3".to_string(), "top.flac".to_string()]);
}

#[test]
fn queue_of_two_listings_is_the_two_queues_joined() {
    let first = || vec![file("1.mp3"), file("skip.txt"), Entry::Dir { entries: vec![file("2.wav")] }];
    let second = || vec![file("3.ogg"), file("4.aac"), file("5.flac")];
    let mut both = first();
    both.extend(second());
    let mut joined = build_queue(first());
    joined.extend(build_queue(second()));
    assert_eq!(build_queue(both), joined);
}

#[test]
fn media_keeps_tags_only_for_tagged_types() {
    let tags = || TrackTags { title: some("Song"), artist: some("Band") };
    let m = Media::new("a.mp3".to_string(), &some("mp3"), tags());
    assert_eq!(m.path(), "a.mp3");
    assert_eq!(m.title(), Some("Song"));
    assert_eq!(m.artist(), Some("Band"));

    let m = Media::new("a.ogg".to_string(), &some("ogg"), tags());
    assert_eq!(m.title(), None);
    assert_eq!(m.artist(), None);

    let m = Media::new("noext".to_string(), &None, tags());
    assert_eq!(m.title(), None);

    let m = Media::new("b.flac".to_string(), &some("flac"), TrackTags { title: None, artist: some("Solo") });
    assert_eq!(m.title(), None);
    assert_eq!(m.artist(), Some("Solo"));
}

#[test]
fn labels_fall_back_to_unknown() {
    let m = Media::new("b.flac".to_string(), &some("flac"), TrackTags { title: None, artist: some("Solo") });
    let l = m.labels();
    assert_eq!(l.title, "UNKNOWN TITLE");
    assert_eq!(l.artist, "Solo");
    let r = m.row();
    assert_eq!(r.title, "Unknown Title");
    assert_eq!(r.artist, "Solo");
    assert!(!r.playing);

    let m = Media::new("c.mp3".to_string(), &some("mp3"), TrackTags { title: some("T"), artist: None });
    let l = m.labels();
    assert_eq!(l.title, "T");
    assert_eq!(l.artist, "UNKNOWN ARTIST");
    let r = m.row();
    assert_eq!(r.title, "T");
    assert_eq!(r.artist, "Unknown Artist");
}

#[test]
fn media_debug_shows_its_fields() {
    let m = Media::new("c.mp3".to_string(), &some("mp3"), TrackTags { title: some("T"), artist: None });
    assert_eq!(format!("{:?}", m), "Media { path: \"c.mp3\", title: Some(\"T\"), artist: None }");
}
