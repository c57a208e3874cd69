use save_op1::disk::{Disk, LibraryError};
use save_op1::listing::{DirListing, Entry};
use save_op1::operator::{Operator, Track};
use save_op1::song::Song;
use save_op1::sync::{load_tape, save_tape};

fn song_dir(name: &str, with_tape: bool) -> DirListing {
    let mut children = vec![Entry { name: format!("{}.aif", name), is_dir: false }];
    if with_tape {
        children.push(Entry { name: "tape".to_string(), is_dir: true });
    }
    DirListing { name: name.to_string(), is_dir: true, children }
}

fn device() -> Operator {
    let file = |n: &str| Entry { name: n.to_string(), is_dir: false };
    let dir = |n: &str, c: Vec<Entry>| DirListing { name: n.to_string(), is_dir: true, children: c };
    let entries = vec![
        dir("album", vec![file("side_a.aif"), file("side_b.aif")]),
        dir("drum", vec![]),
        dir(
            "tape",
            vec![file("track_1.aif"), file("track_2.aif"), file("track_3.aif"), file("track_4.aif")],
        ),
        dir("synth", vec![]),
    ];
    Operator::new("/op1", &Some(entries)).unwrap()
}

#[test]
fn library_needs_songs_dir() {
    assert_eq!(Disk::songs_dir("/home/me/music"), "/home/me/music/songs");
    match Disk::new("/home/me/music", false) {
        Err(e) => assert_eq!(e, LibraryError::NotFound),
        Ok(_) => panic!("library without songs opened"),
    }
    let disk = Disk::new("/home/me/music", true).unwrap();
    assert_eq!(disk._tape_path("x"), "/home/me/music/songs/x/tape");
}

#[test]
fn list_songs_keeps_directories() {
    let disk = Disk::new("/l", true).unwrap();
    let entries = vec![
        song_dir("one", false),
        DirListing { name: "stray.txt".to_string(), is_dir: false, children: vec![] },
        song_dir("two", true),
    ];
    assert_eq!(disk.list_songs(&entries), vec!["one".to_string(), "two".to_string()]);
    assert_eq!(disk.list_songs(&vec![]), Vec::<String>::new());
}

#[test]
fn saved_tape_is_listed_album_is_not() {
    let disk = Disk::new("/l", true).unwrap();
    let song = Song::new("Taped Song", "a");
    let transfer = save_tape(&device(), &disk, &song);
    assert_eq!(transfer.dir, "/l/songs/taped-song/tape");
    let album = Song::new("Album Only", "a");
    let plan = disk.save_aif(&album, "/op1/album/side_a.aif");
    assert_eq!(plan.dir, "/l/songs/album-only");
    let entries = vec![song_dir("album-only", false), song_dir("taped-song", true)];
    let tapes = disk.list_tapes(&entries);
    assert_eq!(tapes, vec!["taped-song".to_string()]);
}

#[test]
fn tape_file_counts_only_as_directory() {
    let disk = Disk::new("/l", true).unwrap();
    let entries = vec![DirListing {
        name: "s".to_string(),
        is_dir: true,
        children: vec![Entry { name: "tape".to_string(), is_dir: false }],
    }];
    assert!(disk.list_tapes(&entries).is_empty());
}

#[test]
fn save_aif_plan() {
    let disk = Disk::new("/l", true).unwrap();
    let song = Song::new("My Tune", "quiet party");
    let plan = disk.save_aif(&song, "/op1/album/side_b.aif");
    assert_eq!(plan.dir, "/l/songs/my-tune");
    assert_eq!(plan.steps.len(), 1);
    assert_eq!(plan.steps[0].source, "/op1/album/side_b.aif");
    assert_eq!(plan.steps[0].target, "/l/songs/my-tune/my-tune.aif");
}

#[test]
fn save_tape_plan_follows_given_order() {
    let disk = Disk::new("/l", true).unwrap();
    let song = Song::new("t", "a");
    let tracks = vec![Track::Two("/d/2.aif".to_string()), Track::One("/d/1.aif".to_string())];
    let plan = disk.save_tape(&song, &tracks);
    assert_eq!(plan.dir, "/l/songs/t/tape");
    assert_eq!(plan.steps.len(), 2);
    assert_eq!(plan.steps[0].source, "/d/2.aif");
    assert_eq!(plan.steps[0].target, "/l/songs/t/tape/track_2.aif");
    assert_eq!(plan.steps[1].target, "/l/songs/t/tape/track_1.aif");
}

#[test]
fn device_tape_to_library() {
    let disk = Disk::new("/l", true).unwrap();
    let song = Song::new("Jam", "a");
    let plan = save_tape(&device(), &disk, &song);
    assert_eq!(plan.steps.len(), 4);
    for k in 0..4 {
        assert_eq!(plan.steps[k].source, format!("/op1/tape/track_{}.aif", k + 1));
        assert_eq!(plan.steps[k].target, format!("/l/songs/jam/tape/track_{}.aif", k + 1));
    }
}

#[test]
fn library_tape_to_device() {
    let disk = Disk::new("/l", true).unwrap();
    let steps = load_tape(&device(), &disk, "jam").unwrap();
    assert_eq!(steps.len(), 4);
    for k in 0..4 {
        assert_eq!(steps[k].source, format!("/l/songs/jam/tape/track_{}.aif", k + 1));
        assert_eq!(steps[k].target, format!("/op1/tape/track_{}.aif", k + 1));
    }
}

#[test]
fn track_paths_of_slug() {
    let disk = Disk::new("/l", true).unwrap();
    let paths = disk._track_paths("jam");
    assert_eq!(
        paths,
        vec![
            "/l/songs/jam/tape/track_1.aif".to_string(),
            "/l/songs/jam/tape/track_2.aif".to_string(),
            "/l/songs/jam/tape/track_3.aif".to_string(),
            "/l/songs/jam/tape/track_4.aif".to_string(),
        ]
    );
}

#[test]
fn encoder_tagger_and_sync_requests() {
    let disk = Disk::new("/l", true).unwrap();
    let song = Song::new("Big One", "quiet party");
    assert_eq!(
        disk.create_mp3(&song),
        vec!["-i", "/l/songs/big-one/big-one.aif", "-ab", "320k", "/l/songs/big-one/big-one.mp3"]
    );
    let tag = disk.tag_mp3(&song);
    assert_eq!(tag.path, "/l/songs/big-one/big-one.mp3");
    assert_eq!(tag.title, "Big One");
    assert_eq!(tag.artist, "quiet party");
    assert_eq!(tag.comment, "large rabbit");
    assert_eq!(
        disk.upload_mp3(&song, "host:music"),
        vec!["-av", "/l/songs/big-one/big-one.mp3", "host:music"]
    );
}
