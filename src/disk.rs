use vstd::prelude::*;

use crate::copy::{is_step, CopyStep, Transfer};
use crate::listing::{find_entry, has_entry, DirListing};
use crate::operator::Track;
use crate::paths::{
    aif_path, mp3_path, song_dir, tape_dir, tape_track_path, SongArg, SongsPath,
};
use crate::song::Song;

verus! {

/// Why a library could not be opened.
#[derive(Debug, PartialEq, Eq, Structural)]
pub enum LibraryError {
    /// The library root holds no `songs` directory.
    NotFound,
}

/// A song directory that holds a `tape` directory.
pub open spec fn has_tape(l: DirListing) -> bool {
    l.is_dir && has_entry(l.children@, "tape"@, true)
}

/// The names of the directories in a listing of `songs`, in listing order.
pub open spec fn song_names(e: Seq<DirListing>) -> Seq<Seq<char>>
    decreases e.len(),
{
    if e.len() == 0 {
        seq![]
    } else {
        let rest = song_names(e.drop_last());
        if e.last().is_dir {
            rest.push(e.last().name@)
        } else {
            rest
        }
    }
}

/// The names of the song directories that hold a tape, in listing order.
pub open spec fn tape_names(e: Seq<DirListing>) -> Seq<Seq<char>>
    decreases e.len(),
{
    if e.len() == 0 {
        seq![]
    } else {
        let rest = tape_names(e.drop_last());
        if has_tape(e.last()) {
            rest.push(e.last().name@)
        } else {
            rest
        }
    }
}

/// Every name that `tape_names` lists is that of a song directory holding a
/// tape.
proof fn lemma_tape_names_sound(e: Seq<DirListing>)
    ensures
        forall|x: Seq<char>|
            #[trigger] tape_names(e).contains(x) ==> exists|j: int|
                0 <= j < e.len() && has_tape(e[j]) && e[j].name@ == x,
    decreases e.len(),
{
    if e.len() > 0 {
        let d = e.drop_last();
        lemma_tape_names_sound(d);
        assert forall|x: Seq<char>| #[trigger] tape_names(e).contains(x) implies exists|j: int|
            0 <= j < e.len() && has_tape(e[j]) && e[j].name@ == x by {
            let k = choose|k: int| 0 <= k < tape_names(e).len() && tape_names(e)[k] == x;
            if has_tape(e.last()) && k == tape_names(e).len() - 1 {
                assert(has_tape(e[e.len() - 1]) && e[e.len() - 1].name@ == x);
            } else {
                assert(tape_names(d)[k] == x);
                assert(tape_names(d).contains(x));
                let j = choose|j: int| 0 <= j < d.len() && has_tape(d[j]) && d[j].name@ == x;
                assert(e[j] == d[j]);
            }
        }
    }
}

/// A song directory holding a `tape` directory, which is what the transfer
/// of `Disk::save_tape` creates, is among the names `list_tapes` returns.
pub proof fn lemma_saved_tape_is_listed(e: Seq<DirListing>, i: int)
    requires
        0 <= i < e.len(),
        has_tape(e[i]),
    ensures
        tape_names(e).contains(e[i].name@),
    decreases e.len(),
{
    let d = e.drop_last();
    if i == e.len() - 1 {
        assert(tape_names(e)[tape_names(e).len() - 1] == e[i].name@);
    } else {
        assert(d[i] == e[i]);
        lemma_saved_tape_is_listed(d, i);
        let k = choose|k: int| 0 <= k < tape_names(d).len() && tape_names(d)[k] == e[i].name@;
        if has_tape(e.last()) {
            assert(tape_names(e)[k] == e[i].name@);
        }
    }
}

/// A song directory without a `tape` directory, which is what the transfer of
/// `Disk::save_aif` alone leaves, is not among the names `list_tapes`
/// returns (directory names being distinct).
pub proof fn lemma_album_alone_not_listed(e: Seq<DirListing>, i: int)
    requires
        0 <= i < e.len(),
        !has_tape(e[i]),
        forall|a: int, b: int|
            0 <= a < e.len() && 0 <= b < e.len() && a != b ==> e[a].name@ != e[b].name@,
    ensures
        !tape_names(e).contains(e[i].name@),
{
    lemma_tape_names_sound(e);
}

/// The text of each string.
pub open spec fn texts(v: Seq<String>) -> Seq<Seq<char>> {
    v.map_values(|s: String| s@)
}

/// The metadata to write into a song's mp3.
pub struct TagEdit {
    pub path: String,
    pub title: String,
    pub artist: String,
    pub comment: String,
}

/// A library: a root directory holding `songs`, under which each song has a
/// directory named by its slug.
pub struct Disk {
    songs: SongsPath,
}

/// `root/songs`.
pub open spec fn songs_path(root: Seq<char>) -> Seq<char> {
    root + "/songs"@
}

impl Disk {
    /// The `songs` directory of this library.
    pub closed spec fn songs_root(&self) -> Seq<char> {
        self.songs.path@
    }

    /// The `songs` directory under `disk_path`, whose presence `new` asks for.
    pub fn songs_dir(disk_path: &str) -> (r: String)
        ensures
            r@ == songs_path(disk_path@),
    {
        let mut s = String::from_str(disk_path);
        s.append("/songs");
        s
    }

    /// Opens the library at `disk_path`, given whether its `songs`
    /// directory exists.
    pub fn new(disk_path: &str, songs_exists: bool) -> (r: Result<Disk, LibraryError>)
        ensures
            !songs_exists ==> r == Err::<Disk, LibraryError>(LibraryError::NotFound),
            songs_exists ==> r is Ok && r->Ok_0.songs_root() == songs_path(disk_path@),
    {
        if !songs_exists {
            return Err(LibraryError::NotFound);
        }
        Ok(Disk { songs: SongsPath::new(Disk::songs_dir(disk_path)) })
    }

    /// The directories among the readable entries of `songs`.
    pub fn list_songs(&self, entries: &Vec<DirListing>) -> (r: Vec<String>)
        ensures
            texts(r@) == song_names(entries@),
    {
        let mut names: Vec<String> = Vec::new();
        let mut i: usize = 0;
        while i < entries.len()
            invariant
                0 <= i <= entries@.len(),
                texts(names@) == song_names(entries@.subrange(0, i as int)),
            decreases entries@.len() - i,
        {
            if entries[i].is_dir {
                names.push(entries[i].name.clone());
            }
            proof {
                assert(entries@.subrange(0, i + 1).drop_last() =~= entries@.subrange(0, i as int));
                assert(texts(names@) =~= song_names(entries@.subrange(0, i + 1)));
            }
            i = i + 1;
        }
        assert(entries@.subrange(0, entries@.len() as int) =~= entries@);
        names
    }

    /// The song directories among the readable entries of `songs` that hold
    /// a `tape` directory.
    pub fn list_tapes(&self, entries: &Vec<DirListing>) -> (r: Vec<String>)
        ensures
            texts(r@) == tape_names(entries@),
    {
        let mut names: Vec<String> = Vec::new();
        let mut i: usize = 0;
        while i < entries.len()
            invariant
                0 <= i <= entries@.len(),
                texts(names@) == tape_names(entries@.subrange(0, i as int)),
            decreases entries@.len() - i,
        {
            let e = &entries[i];
            if e.is_dir && find_entry(&e.children, "tape", true) {
                names.push(e.name.clone());
            }
            proof {
                assert(entries@.subrange(0, i + 1).drop_last() =~= entries@.subrange(0, i as int));
                assert(texts(names@) =~= tape_names(entries@.subrange(0, i + 1)));
            }
            i = i + 1;
        }
        assert(entries@.subrange(0, entries@.len() as int) =~= entries@);
        names
    }

    /// Plans saving `source` as the song's album file: the song directory
    /// first, then one copy to `songs/slug/slug.aif`.
    pub fn save_aif(&self, song: &Song, source: &str) -> (r: Transfer)
        ensures
            r.dir@ == song_dir(self.songs_root(), song.slug@),
            r.steps@.len() == 1,
            is_step(r.steps@[0], source@, aif_path(self.songs_root(), song.slug@)),
    {
        let arg = SongArg::Song(song);
        let dir = self.songs.song_string(&arg);
        let target = self.songs.aif_string(&arg);
        let mut steps: Vec<CopyStep> = Vec::new();
        steps.push(CopyStep { source: String::from_str(source), target });
        Transfer { dir, steps }
    }

    /// Plans saving tracks as the song's tape: the tape directory first, then
    /// one copy per track, in the order given, each to the file named after
    /// the track. Neither the count nor the order of tracks is checked.
    pub fn save_tape(&self, song: &Song, tracks: &Vec<Track>) -> (r: Transfer)
        ensures
            r.dir@ == tape_dir(self.songs_root(), song.slug@),
            r.steps@.len() == tracks@.len(),
            forall|k: int|
                0 <= k < tracks@.len() ==> is_step(
                    #[trigger] r.steps@[k],
                    tracks@[k].path_view(),
                    tape_track_path(self.songs_root(), song.slug@, tracks@[k].number()),
                ),
    {
        let arg = SongArg::Song(song);
        let dir = self.songs.tape_string(&arg);
        let mut steps: Vec<CopyStep> = Vec::new();
        let mut i: usize = 0;
        while i < tracks.len()
            invariant
                0 <= i <= tracks@.len(),
                arg.slug_view() == song.slug@,
                steps@.len() == i,
                forall|k: int|
                    0 <= k < i ==> is_step(
                        #[trigger] steps@[k],
                        tracks@[k].path_view(),
                        tape_track_path(self.songs_root(), song.slug@, tracks@[k].number()),
                    ),
            decreases tracks@.len() - i,
        {
            let track = &tracks[i];
            let target = self.songs.tape_track(&arg, track.index());
            steps.push(CopyStep { source: track.path(), target });
            i = i + 1;
        }
        Transfer { dir, steps }
    }

    /// The encoder's arguments that turn the song's aif file into its mp3
    /// file at 320 kbit/s.
    pub fn create_mp3(&self, song: &Song) -> (r: Vec<String>)
        ensures
            texts(r@) == seq![
                "-i"@,
                aif_path(self.songs_root(), song.slug@),
                "-ab"@,
                "320k"@,
                mp3_path(self.songs_root(), song.slug@),
            ],
    {
        let arg = SongArg::Song(song);
        let mut v: Vec<String> = Vec::new();
        v.push(String::from_str("-i"));
        v.push(self.songs.aif_string(&arg));
        v.push(String::from_str("-ab"));
        v.push(String::from_str("320k"));
        v.push(self.songs.mp3_string(&arg));
        assert(texts(v@) =~= seq![
            "-i"@,
            aif_path(self.songs_root(), song.slug@),
            "-ab"@,
            "320k"@,
            mp3_path(self.songs_root(), song.slug@),
        ]);
        v
    }

    /// The metadata for the song's mp3: its name as title, its artist, and a
    /// fixed comment.
    pub fn tag_mp3(&self, song: &Song) -> (r: TagEdit)
        ensures
            r.path@ == mp3_path(self.songs_root(), song.slug@),
            r.title@ == song.name@,
            r.artist@ == song.artist@,
            r.comment@ == "large rabbit"@,
    {
        TagEdit {
            path: self.songs.mp3_string(&SongArg::Song(song)),
            title: song.name.clone(),
            artist: song.artist.clone(),
            comment: String::from_str("large rabbit"),
        }
    }

    /// The remote-sync tool's arguments that send the song's mp3 to `remote`.
    pub fn upload_mp3(&self, song: &Song, remote: &str) -> (r: Vec<String>)
        ensures
            texts(r@) == seq!["-av"@, mp3_path(self.songs_root(), song.slug@), remote@],
    {
        let mut v: Vec<String> = Vec::new();
        v.push(String::from_str("-av"));
        v.push(self.songs.mp3_string(&SongArg::Song(song)));
        v.push(String::from_str(remote));
        assert(texts(v@) =~= seq!["-av"@, mp3_path(self.songs_root(), song.slug@), remote@]);
        v
    }

    /// `songs/slug/tape`.
    pub fn _tape_path(&self, slug: &str) -> (r: String)
        ensures
            r@ == tape_dir(self.songs_root(), slug@),
    {
        self.songs.tape_string(&SongArg::Slug(slug))
    }

    /// The four tape files of a saved song, track 1 first. Whether they exist
    /// is not looked at.
    pub fn _track_paths(&self, slug: &str) -> (r: Vec<String>)
        ensures
            r@.len() == 4,
            forall|k: int|
                0 <= k < 4 ==> (#[trigger] r@[k])@ == tape_track_path(
                    self.songs_root(),
                    slug@,
                    k + 1,
                ),
    {
        let arg = SongArg::Slug(slug);
        let mut v: Vec<String> = Vec::new();
        let mut n: u8 = 1;
        while n <= 4
            invariant
                1 <= n <= 5,
                v@.len() == n - 1,
                arg.slug_view() == slug@,
                forall|k: int|
                    0 <= k < n - 1 ==> (#[trigger] v@[k])@ == tape_track_path(
                        self.songs_root(),
                        slug@,
                        k + 1,
                    ),
            decreases 5 - n,
        {
            v.push(self.songs.tape_track(&arg, n));
            n = n + 1;
        }
        v
    }
}

} // verus!
