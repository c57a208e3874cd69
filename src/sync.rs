use vstd::prelude::*;

use crate::copy::{is_step, CopyStep, Transfer};
use crate::disk::Disk;
use crate::operator::{DeviceError, Operator};
use crate::paths::{tape_dir, tape_track_path};
use crate::song::Song;

verus! {

/// Plans writing a saved tape back onto the device: library track `k` over
/// device track `k`, track 1 first. The library files are not looked at;
/// a missing one fails its copy.
pub fn load_tape(op1: &Operator, disk: &Disk, slug: &str) -> (r: Result<Vec<CopyStep>, DeviceError>)
    ensures
        r is Ok,
        r->Ok_0@.len() == 4,
        forall|k: int|
            0 <= k < 4 ==> is_step(
                #[trigger] r->Ok_0@[k],
                tape_track_path(disk.songs_root(), slug@, k + 1),
                op1.tape.track_seq()[k].path_view(),
            ),
{
    let paths = disk._track_paths(slug);
    op1.save_tape(&paths)
}

/// Plans saving the device's tape into the library under `song`.
pub fn save_tape(op1: &Operator, disk: &Disk, song: &Song) -> (r: Transfer)
    ensures
        r.dir@ == tape_dir(disk.songs_root(), song.slug@),
        r.steps@.len() == op1.tape.track_seq().len(),
        forall|k: int|
            0 <= k < r.steps@.len() ==> is_step(
                #[trigger] r.steps@[k],
                op1.tape.track_seq()[k].path_view(),
                tape_track_path(
                    disk.songs_root(),
                    song.slug@,
                    op1.tape.track_seq()[k].number(),
                ),
            ),
{
    let tracks = op1.tape.tracks();
    disk.save_tape(song, &tracks)
}

} // verus!
