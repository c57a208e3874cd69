use save_op1::disk::Disk;
use save_op1::paths::{track_name_string, SongArg, SongsPath};
use save_op1::song::{slug, Song};

#[test]
fn slug_examples() {
    assert_eq!(slug("My Test String!!!1!1"), "my-test-string-1-1");
    assert_eq!(slug("test\nit   now!"), "test-it-now");
    assert_eq!(slug("  --test_-_cool"), "test-cool");
    assert_eq!(slug("You & Me"), "you-me");
    assert_eq!(slug(""), "");
}

#[test]
fn slug_is_idempotent() {
    for name in ["Über!", "Large Rabbit", "  a--b  ", "x", "2024 mix #3"] {
        let once = slug(name);
        assert_eq!(slug(&once), once);
    }
}

#[test]
fn slug_is_deterministic() {
    assert_eq!(slug("Quiet Party"), slug("Quiet Party"));
    assert_eq!(slug("Quiet Party"), "quiet-party");
}

#[test]
fn song_new_keeps_name_and_artist() {
    let song = Song::new("Big Song!", "quiet party");
    assert_eq!(song.name, "Big Song!");
    assert_eq!(song.slug, "big-song");
    assert_eq!(song.artist, "quiet party");
}

#[test]
fn colliding_names_share_files() {
    let first = Song::new("Über!", "a");
    let second = Song::new("uber", "b");
    assert_ne!(first.name, second.name);
    assert_eq!(first.slug, "uber");
    assert_eq!(first.slug, second.slug);
    let disk = Disk::new("/lib", true).unwrap();
    let a = disk.save_aif(&first, "/dev/x.aif");
    let b = disk.save_aif(&second, "/dev/y.aif");
    assert_eq!(a.dir, b.dir);
    assert_eq!(a.steps[0].target, b.steps[0].target);
    assert_eq!(b.steps[0].target, "/lib/songs/uber/uber.aif");
}

#[test]
fn song_paths() {
    let songs = SongsPath::new("/lib/songs".to_string());
    let arg = SongArg::Slug("tune");
    assert_eq!(songs.song_string(&arg), "/lib/songs/tune");
    assert_eq!(songs.tape_string(&arg), "/lib/songs/tune/tape");
    assert_eq!(songs.tape_track(&arg, 3), "/lib/songs/tune/tape/track_3.aif");
    assert_eq!(songs.aif_string(&arg), "/lib/songs/tune/tune.aif");
    assert_eq!(songs.mp3_string(&arg), "/lib/songs/tune/tune.mp3");
}

#[test]
fn empty_root_gives_malformed_paths() {
    let songs = SongsPath::new(String::new());
    let arg = SongArg::Slug("s");
    assert_eq!(songs.song_string(&arg), "/s");
    assert_eq!(songs.aif_string(&arg), "/s/s.aif");
}

#[test]
fn song_arg_fields() {
    let song = Song::new("Hello World", "me");
    let arg = SongArg::Song(&song);
    assert_eq!(arg.slug(), "hello-world");
    assert_eq!(arg._artist(), Some("me".to_string()));
    assert_eq!(arg._name(), Some("Hello World".to_string()));
    let bare = SongArg::Slug("abc");
    assert_eq!(bare.slug(), "abc");
    assert_eq!(bare._artist(), None);
    assert_eq!(bare._name(), None);
}

#[test]
fn track_names() {
    assert_eq!(track_name_string(1), "track_1");
    assert_eq!(track_name_string(2), "track_2");
    assert_eq!(track_name_string(3), "track_3");
    assert_eq!(track_name_string(4), "track_4");
}
