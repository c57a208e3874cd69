use vstd::prelude::*;

use crate::copy::{is_step, CopyStep};
use crate::listing::{find_entry, has_dir_where, has_entry, DirListing, Entry};
use crate::paths::{track_name, track_name_string};

verus! {

/// `mount/rel`: a fixed entry of the device mounted at `mount`.
pub open spec fn device_path(mount: Seq<char>, rel: Seq<char>) -> Seq<char> {
    mount + "/"@ + rel
}

/// `track_<n>.aif`: the file name of tape track `n`.
pub open spec fn track_file(n: int) -> Seq<char> {
    track_name(n) + ".aif"@
}

proof fn lemma_track_files()
    ensures
        track_file(1) == "track_1.aif"@,
        track_file(2) == "track_2.aif"@,
        track_file(3) == "track_3.aif"@,
        track_file(4) == "track_4.aif"@,
{
    reveal_strlit("track_1");
    reveal_strlit("track_2");
    reveal_strlit("track_3");
    reveal_strlit("track_4");
    reveal_strlit(".aif");
    reveal_strlit("track_1.aif");
    reveal_strlit("track_2.aif");
    reveal_strlit("track_3.aif");
    reveal_strlit("track_4.aif");
    assert(track_file(1) =~= "track_1.aif"@);
    assert(track_file(2) =~= "track_2.aif"@);
    assert(track_file(3) =~= "track_3.aif"@);
    assert(track_file(4) =~= "track_4.aif"@);
}

/// The entries of `album/`: both side files.
pub open spec fn album_ok(c: Seq<Entry>) -> bool {
    has_entry(c, "side_a.aif"@, false) && has_entry(c, "side_b.aif"@, false)
}

/// The entries of `tape/`: all four track files.
pub open spec fn tape_ok(c: Seq<Entry>) -> bool {
    &&& has_entry(c, track_file(1), false)
    &&& has_entry(c, track_file(2), false)
    &&& has_entry(c, track_file(3), false)
    &&& has_entry(c, track_file(4), false)
}

/// The layout a device must show at its root: `album/` with both sides,
/// `tape/` with four tracks, and the directories `drum/` and `synth/`.
pub open spec fn device_ok(e: Seq<DirListing>) -> bool {
    &&& has_dir_where(e, "album"@, |c: Seq<Entry>| album_ok(c))
    &&& has_dir_where(e, "tape"@, |c: Seq<Entry>| tape_ok(c))
    &&& has_dir_where(e, "drum"@, |c: Seq<Entry>| true)
    &&& has_dir_where(e, "synth"@, |c: Seq<Entry>| true)
}

/// Entry names in a directory are distinct.
pub open spec fn distinct_names(c: Seq<Entry>) -> bool {
    forall|a: int, b: int|
        0 <= a < c.len() && 0 <= b < c.len() && a != b ==> c[a].name@ != c[b].name@
}

/// Root entry names are distinct.
pub open spec fn distinct_dir_names(e: Seq<DirListing>) -> bool {
    forall|a: int, b: int|
        0 <= a < e.len() && 0 <= b < e.len() && a != b ==> e[a].name@ != e[b].name@
}

/// Once an entry is taken out of a directory, no entry of that name is left.
proof fn lemma_removed_entry_gone(c: Seq<Entry>, i: int, dir: bool)
    requires
        0 <= i < c.len(),
        distinct_names(c),
    ensures
        !has_entry(c.remove(i), c[i].name@, dir),
{
    let r = c.remove(i);
    assert forall|j: int| 0 <= j < r.len() implies r[j].name@ != c[i].name@ by {
        if j < i {
            assert(r[j] == c[j]);
        } else {
            assert(r[j] == c[j + 1]);
        }
    }
}

/// Taking either side file out of an `album/` directory makes it incomplete.
pub proof fn lemma_album_needs_both_sides(c: Seq<Entry>, i: int)
    requires
        0 <= i < c.len(),
        distinct_names(c),
        c[i].name@ == "side_a.aif"@ || c[i].name@ == "side_b.aif"@,
    ensures
        !album_ok(c.remove(i)),
{
    lemma_removed_entry_gone(c, i, false);
}

/// Taking any track file out of a `tape/` directory makes it incomplete.
pub proof fn lemma_tape_needs_all_tracks(c: Seq<Entry>, i: int)
    requires
        0 <= i < c.len(),
        distinct_names(c),
        exists|n: int| 1 <= n <= 4 && c[i].name@ == #[trigger] track_file(n),
    ensures
        !tape_ok(c.remove(i)),
{
    lemma_removed_entry_gone(c, i, false);
}

/// Taking `album`, `tape`, `drum` or `synth` out of a device root makes the
/// device invalid, whatever else it holds.
pub proof fn lemma_device_needs_each_dir(e: Seq<DirListing>, i: int)
    requires
        0 <= i < e.len(),
        distinct_dir_names(e),
        e[i].name@ == "album"@ || e[i].name@ == "tape"@ || e[i].name@ == "drum"@ || e[i].name@
            == "synth"@,
    ensures
        !device_ok(e.remove(i)),
{
    let r = e.remove(i);
    assert forall|j: int| 0 <= j < r.len() implies r[j].name@ != e[i].name@ by {
        if j < i {
            assert(r[j] == e[j]);
        } else {
            assert(r[j] == e[j + 1]);
        }
    }
}

/// Why a device was refused, or a write to it could not start.
#[derive(Debug, PartialEq, Eq, Structural)]
pub enum DeviceError {
    /// The device root could not be listed.
    Inaccessible,
    /// The device root lacks one of the required entries.
    StructureInvalid,
    /// No source was given for this track (1 to 4).
    MissingTrack(usize),
}

/// One side of the album, or none where the user picked neither.
pub enum Side {
    A(String),
    B(String),
    Neither,
}

impl Side {
    pub open spec fn path_view(&self) -> Option<Seq<char>> {
        match self {
            Side::A(p) => Some(p@),
            Side::B(p) => Some(p@),
            Side::Neither => None,
        }
    }

    pub fn path(&self) -> (r: Option<String>)
        ensures
            r is Some <==> self.path_view() is Some,
            r is Some ==> r->0@ == self.path_view()->0,
    {
        match self {
            Side::A(p) => Some(p.clone()),
            Side::B(p) => Some(p.clone()),
            Side::Neither => None,
        }
    }

    /// The label shown for this side.
    pub fn name(&self) -> (r: String)
        ensures
            r@ == match self {
                Side::A(_) => "side_a"@,
                Side::B(_) => "side_b"@,
                Side::Neither => "NO SIDE"@,
            },
    {
        match self {
            Side::A(_) => String::from_str("side_a"),
            Side::B(_) => String::from_str("side_b"),
            Side::Neither => String::from_str("NO SIDE"),
        }
    }
}

/// The two sides of the device's album.
pub struct Album {
    pub side_a: Side,
    pub side_b: Side,
}

impl Album {
    /// Whether the entries of an `album/` directory hold both side files.
    pub fn check_structure(children: &Vec<Entry>) -> (r: bool)
        ensures
            r == album_ok(children@),
    {
        find_entry(children, "side_a.aif", false) && find_entry(children, "side_b.aif", false)
    }
}

/// One of the four tape tracks, with the path of its audio file.
pub enum Track {
    One(String),
    Two(String),
    Three(String),
    Four(String),
}

impl Track {
    pub open spec fn number(&self) -> int {
        match self {
            Track::One(_) => 1,
            Track::Two(_) => 2,
            Track::Three(_) => 3,
            Track::Four(_) => 4,
        }
    }

    pub open spec fn path_view(&self) -> Seq<char> {
        match self {
            Track::One(p) => p@,
            Track::Two(p) => p@,
            Track::Three(p) => p@,
            Track::Four(p) => p@,
        }
    }

    pub fn path(&self) -> (r: String)
        ensures
            r@ == self.path_view(),
    {
        match self {
            Track::One(p) => p.clone(),
            Track::Two(p) => p.clone(),
            Track::Three(p) => p.clone(),
            Track::Four(p) => p.clone(),
        }
    }

    /// The track's number, 1 to 4.
    pub fn index(&self) -> (r: u8)
        ensures
            r as int == self.number(),
            1 <= r <= 4,
    {
        match self {
            Track::One(_) => 1,
            Track::Two(_) => 2,
            Track::Three(_) => 3,
            Track::Four(_) => 4,
        }
    }

    /// The track's display name, `track_1` .. `track_4`.
    pub fn name(&self) -> (r: String)
        ensures
            r@ == track_name(self.number()),
    {
        track_name_string(self.index())
    }

    pub fn duplicate(&self) -> (r: Track)
        ensures
            r == *self,
    {
        match self {
            Track::One(p) => Track::One(p.clone()),
            Track::Two(p) => Track::Two(p.clone()),
            Track::Three(p) => Track::Three(p.clone()),
            Track::Four(p) => Track::Four(p.clone()),
        }
    }
}

/// The device's four tape tracks, in their fixed order.
pub struct Tape {
    track_1: Track,
    track_2: Track,
    track_3: Track,
    track_4: Track,
}

impl Tape {
    /// The tracks in order, track 1 first.
    pub closed spec fn track_seq(&self) -> Seq<Track> {
        seq![self.track_1, self.track_2, self.track_3, self.track_4]
    }

    /// Track `k` (0-based) is numbered `k + 1`.
    pub closed spec fn wf(&self) -> bool {
        &&& self.track_1 is One
        &&& self.track_2 is Two
        &&& self.track_3 is Three
        &&& self.track_4 is Four
    }

    pub fn new(t1: String, t2: String, t3: String, t4: String) -> (r: Tape)
        ensures
            r.wf(),
            r.track_seq().len() == 4,
            r.track_seq()[0].path_view() == t1@,
            r.track_seq()[1].path_view() == t2@,
            r.track_seq()[2].path_view() == t3@,
            r.track_seq()[3].path_view() == t4@,
    {
        Tape {
            track_1: Track::One(t1),
            track_2: Track::Two(t2),
            track_3: Track::Three(t3),
            track_4: Track::Four(t4),
        }
    }

    pub proof fn lemma_numbering(&self)
        requires
            self.wf(),
        ensures
            self.track_seq().len() == 4,
            forall|k: int| 0 <= k < 4 ==> (#[trigger] self.track_seq()[k]).number() == k + 1,
    {
    }

    /// Plans the writing of four source files onto the tape, track 1 first.
    /// Fewer than four sources name the first missing track; sources after
    /// the fourth are not used.
    pub fn save(&self, tracks: &Vec<String>) -> (r: Result<Vec<CopyStep>, DeviceError>)
        ensures
            tracks@.len() < 4 ==> r == Err::<Vec<CopyStep>, DeviceError>(
                DeviceError::MissingTrack((tracks@.len() + 1) as usize),
            ),
            tracks@.len() >= 4 ==> r is Ok,
            r is Ok ==> {
                let steps = r->Ok_0@;
                &&& steps.len() == 4
                &&& forall|k: int|
                    0 <= k < 4 ==> is_step(
                        #[trigger] steps[k],
                        tracks@[k]@,
                        self.track_seq()[k].path_view(),
                    )
            },
    {
        if tracks.len() < 4 {
            return Err(DeviceError::MissingTrack(tracks.len() + 1));
        }
        let mut steps: Vec<CopyStep> = Vec::new();
        steps.push(CopyStep { source: tracks[0].clone(), target: self.track_1.path() });
        steps.push(CopyStep { source: tracks[1].clone(), target: self.track_2.path() });
        steps.push(CopyStep { source: tracks[2].clone(), target: self.track_3.path() });
        steps.push(CopyStep { source: tracks[3].clone(), target: self.track_4.path() });
        Ok(steps)
    }

    /// The four tracks, track 1 first.
    pub fn tracks(&self) -> (r: Vec<Track>)
        ensures
            r@ == self.track_seq(),
    {
        let mut v: Vec<Track> = Vec::new();
        v.push(self.track_1.duplicate());
        v.push(self.track_2.duplicate());
        v.push(self.track_3.duplicate());
        v.push(self.track_4.duplicate());
        assert(v@ =~= self.track_seq());
        v
    }

    /// Whether the entries of a `tape/` directory hold all four track files.
    pub fn check_structure(children: &Vec<Entry>) -> (r: bool)
        ensures
            r == tape_ok(children@),
    {
        proof {
            lemma_track_files();
        }
        find_entry(children, "track_1.aif", false) && find_entry(children, "track_2.aif", false)
            && find_entry(children, "track_3.aif", false) && find_entry(
            children,
            "track_4.aif",
            false,
        )
    }
}

/// `mount/rel`.
fn device_entry(mount: &str, rel: &str) -> (r: String)
    ensures
        r@ == device_path(mount@, rel@),
{
    let mut s = String::from_str(mount);
    s.append("/");
    s.append(rel);
    s
}

/// `mount/tape/track_<n>.aif`.
fn device_track(mount: &str, n: u8) -> (r: String)
    requires
        1 <= n <= 4,
    ensures
        r@ == device_path(mount@, "tape/"@ + track_file(n as int)),
{
    let mut s = String::from_str(mount);
    s.append("/tape/");
    let name = track_name_string(n);
    s.append(name.as_str());
    s.append(".aif");
    proof {
        reveal_strlit("/tape/");
        reveal_strlit("tape/");
        reveal_strlit("/");
        assert(s@ =~= device_path(mount@, "tape/"@ + track_file(n as int)));
    }
    s
}

/// A device that showed the required layout, with its fixed assets.
pub struct Operator {
    pub album: Album,
    pub tape: Tape,
}

impl Operator {
    /// The assets are the fixed entries of the device mounted at `mount`.
    pub open spec fn at_mount(&self, mount: Seq<char>) -> bool {
        &&& self.album.side_a is A
        &&& self.album.side_a.path_view() == Some(device_path(mount, "album/side_a.aif"@))
        &&& self.album.side_b is B
        &&& self.album.side_b.path_view() == Some(device_path(mount, "album/side_b.aif"@))
        &&& self.tape.wf()
        &&& self.tape.track_seq().len() == 4
        &&& forall|k: int|
            0 <= k < 4 ==> (#[trigger] self.tape.track_seq()[k]).path_view() == device_path(
                mount,
                "tape/"@ + track_file(k + 1),
            )
    }

    /// Whether the listing of a device root shows the required layout.
    pub fn check_structure(entries: &Vec<DirListing>) -> (r: bool)
        ensures
            r == device_ok(entries@),
    {
        let album = String::from_str("album");
        let tape = String::from_str("tape");
        let drum = String::from_str("drum");
        let synth = String::from_str("synth");
        let mut has_album = false;
        let mut has_tape = false;
        let mut has_drum = false;
        let mut has_synth = false;
        let mut i: usize = 0;
        while i < entries.len()
            invariant
                0 <= i <= entries@.len(),
                album@ == "album"@,
                tape@ == "tape"@,
                drum@ == "drum"@,
                synth@ == "synth"@,
                has_album == exists|j: int|
                    0 <= j < i && #[trigger] entries@[j].name@ == "album"@ && entries@[j].is_dir
                        && album_ok(entries@[j].children@),
                has_tape == exists|j: int|
                    0 <= j < i && #[trigger] entries@[j].name@ == "tape"@ && entries@[j].is_dir
                        && tape_ok(entries@[j].children@),
                has_drum == exists|j: int|
                    0 <= j < i && #[trigger] entries@[j].name@ == "drum"@ && entries@[j].is_dir,
                has_synth == exists|j: int|
                    0 <= j < i && #[trigger] entries@[j].name@ == "synth"@ && entries@[j].is_dir,
            decreases entries@.len() - i,
        {
            let e = &entries[i];
            if e.is_dir {
                if e.name.eq(&album) && Album::check_structure(&e.children) {
                    has_album = true;
                }
                if e.name.eq(&tape) && Tape::check_structure(&e.children) {
                    has_tape = true;
                }
                if e.name.eq(&drum) {
                    has_drum = true;
                }
                if e.name.eq(&synth) {
                    has_synth = true;
                }
            }
            i = i + 1;
        }
        has_album && has_tape && has_drum && has_synth
    }

    /// Opens the device mounted at `mount_path` from the listing of its root
    /// (`None` where the root could not be listed).
    pub fn new(mount_path: &str, listing: &Option<Vec<DirListing>>) -> (r: Result<
        Operator,
        DeviceError,
    >)
        ensures
            listing is None ==> r == Err::<Operator, DeviceError>(DeviceError::Inaccessible),
            listing is Some && !device_ok(listing->0@) ==> r == Err::<Operator, DeviceError>(
                DeviceError::StructureInvalid,
            ),
            listing is Some && device_ok(listing->0@) ==> r is Ok && r->Ok_0.at_mount(
                mount_path@,
            ),
    {
        let entries = match listing {
            Some(e) => e,
            None => {
                return Err(DeviceError::Inaccessible);
            },
        };
        if !Operator::check_structure(entries) {
            return Err(DeviceError::StructureInvalid);
        }
        let tape = Tape::new(
            device_track(mount_path, 1),
            device_track(mount_path, 2),
            device_track(mount_path, 3),
            device_track(mount_path, 4),
        );
        proof {
            tape.lemma_numbering();
        }
        Ok(
            Operator {
                album: Album {
                    side_a: Side::A(device_entry(mount_path, "album/side_a.aif")),
                    side_b: Side::B(device_entry(mount_path, "album/side_b.aif")),
                },
                tape,
            },
        )
    }

    /// Plans the writing of four library files onto the device's tape.
    pub fn save_tape(&self, tracks: &Vec<String>) -> (r: Result<Vec<CopyStep>, DeviceError>)
        ensures
            tracks@.len() < 4 ==> r == Err::<Vec<CopyStep>, DeviceError>(
                DeviceError::MissingTrack((tracks@.len() + 1) as usize),
            ),
            tracks@.len() >= 4 ==> r is Ok,
            r is Ok ==> {
                let steps = r->Ok_0@;
                &&& steps.len() == 4
                &&& forall|k: int|
                    0 <= k < 4 ==> is_step(
                        #[trigger] steps[k],
                        tracks@[k]@,
                        self.tape.track_seq()[k].path_view(),
                    )
            },
    {
        self.tape.save(tracks)
    }
}

} // verus!
