use vstd::prelude::*;

use crate::song::Song;

verus! {

/// `root/slug`: the directory of one song.
pub open spec fn song_dir(root: Seq<char>, slug: Seq<char>) -> Seq<char> {
    root + "/"@ + slug
}

/// `root/slug/tape`: the directory that holds a song's four tape tracks.
pub open spec fn tape_dir(root: Seq<char>, slug: Seq<char>) -> Seq<char> {
    song_dir(root, slug) + "/tape"@
}

/// The display and file-stem name of tape track `n`: `track_1` .. `track_4`.
pub open spec fn track_name(n: int) -> Seq<char> {
    if n == 1 {
        "track_1"@
    } else if n == 2 {
        "track_2"@
    } else if n == 3 {
        "track_3"@
    } else {
        "track_4"@
    }
}

/// `root/slug/tape/track_<n>.aif`.
pub open spec fn tape_track_path(root: Seq<char>, slug: Seq<char>, n: int) -> Seq<char> {
    tape_dir(root, slug) + "/"@ + track_name(n) + ".aif"@
}

/// `root/slug/slug.aif`.
pub open spec fn aif_path(root: Seq<char>, slug: Seq<char>) -> Seq<char> {
    song_dir(root, slug) + "/"@ + slug + ".aif"@
}

/// `root/slug/slug.mp3`.
pub open spec fn mp3_path(root: Seq<char>, slug: Seq<char>) -> Seq<char> {
    song_dir(root, slug) + "/"@ + slug + ".mp3"@
}

/// The text of `track_name(n)`.
pub fn track_name_string(n: u8) -> (r: String)
    requires
        1 <= n <= 4,
    ensures
        r@ == track_name(n as int),
{
    if n == 1 {
        String::from_str("track_1")
    } else if n == 2 {
        String::from_str("track_2")
    } else if n == 3 {
        String::from_str("track_3")
    } else {
        String::from_str("track_4")
    }
}

/// A song given either by its bare slug or as a whole record.
pub enum SongArg<'life> {
    Slug(&'life str),
    Song(&'life Song),
}

impl SongArg<'_> {
    pub open spec fn slug_view(&self) -> Seq<char> {
        match self {
            SongArg::Slug(s) => s@,
            SongArg::Song(song) => song.slug@,
        }
    }

    pub fn slug(&self) -> (r: String)
        ensures
            r@ == self.slug_view(),
    {
        match self {
            SongArg::Slug(s) => String::from_str(s),
            SongArg::Song(song) => song.slug.clone(),
        }
    }

    pub fn _artist(&self) -> (r: Option<String>)
        ensures
            match self {
                SongArg::Slug(_) => r is None,
                SongArg::Song(song) => r is Some && r->0@ == song.artist@,
            },
    {
        match self {
            SongArg::Slug(_) => None,
            SongArg::Song(song) => Some(song.artist.clone()),
        }
    }

    pub fn _name(&self) -> (r: Option<String>)
        ensures
            match self {
                SongArg::Slug(_) => r is None,
                SongArg::Song(song) => r is Some && r->0@ == song.name@,
            },
    {
        match self {
            SongArg::Slug(_) => None,
            SongArg::Song(song) => Some(song.name.clone()),
        }
    }
}

/// The `songs` directory of a library, under which each song has a
/// directory named by its slug.
pub struct SongsPath {
    pub path: String,
}

impl SongsPath {
    pub fn new(path_name: String) -> (r: SongsPath)
        ensures
            r.path@ == path_name@,
    {
        SongsPath { path: path_name }
    }

    pub fn song_string(&self, song: &SongArg) -> (r: String)
        ensures
            r@ == song_dir(self.path@, song.slug_view()),
    {
        let mut s = self.path.clone();
        s.append("/");
        let slug = song.slug();
        s.append(slug.as_str());
        s
    }

    pub fn tape_string(&self, song: &SongArg) -> (r: String)
        ensures
            r@ == tape_dir(self.path@, song.slug_view()),
    {
        let mut s = self.song_string(song);
        s.append("/tape");
        s
    }

    pub fn tape_track(&self, song: &SongArg, n: u8) -> (r: String)
        requires
            1 <= n <= 4,
        ensures
            r@ == tape_track_path(self.path@, song.slug_view(), n as int),
    {
        let mut s = self.tape_string(song);
        s.append("/");
        let name = track_name_string(n);
        s.append(name.as_str());
        s.append(".aif");
        s
    }

    pub fn aif_string(&self, song: &SongArg) -> (r: String)
        ensures
            r@ == aif_path(self.path@, song.slug_view()),
    {
        let mut s = self.song_string(song);
        s.append("/");
        let slug = song.slug();
        s.append(slug.as_str());
        s.append(".aif");
        s
    }

    pub fn mp3_string(&self, song: &SongArg) -> (r: String)
        ensures
            r@ == mp3_path(self.path@, song.slug_view()),
    {
        let mut s = self.song_string(song);
        s.append("/");
        let slug = song.slug();
        s.append(slug.as_str());
        s.append(".mp3");
        s
    }
}

} // verus!
