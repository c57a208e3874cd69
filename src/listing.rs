use vstd::prelude::*;

verus! {

/// One readable entry of a directory: its name and whether it is a directory.
/// Entries that could not be read are left out of a listing altogether.
pub struct Entry {
    pub name: String,
    pub is_dir: bool,
}

/// One readable entry of a root directory together with the entries of its
/// own (empty where it is not a directory).
pub struct DirListing {
    pub name: String,
    pub is_dir: bool,
    pub children: Vec<Entry>,
}

/// `entries` holds an entry called `name` of the given kind.
pub open spec fn has_entry(entries: Seq<Entry>, name: Seq<char>, dir: bool) -> bool {
    exists|i: int| 0 <= i < entries.len() && #[trigger] entries[i].name@ == name && entries[i].is_dir == dir
}

/// `entries` holds a directory called `name` whose own entries satisfy `ok`.
pub open spec fn has_dir_where(
    entries: Seq<DirListing>,
    name: Seq<char>,
    ok: spec_fn(Seq<Entry>) -> bool,
) -> bool {
    exists|i: int|
        0 <= i < entries.len() && #[trigger] entries[i].name@ == name && entries[i].is_dir
            && ok(entries[i].children@)
}

/// Whether `entries` holds an entry called `name` of the given kind.
pub fn find_entry(entries: &Vec<Entry>, name: &str, dir: bool) -> (r: bool)
    ensures
        r == has_entry(entries@, name@, dir),
{
    let target = String::from_str(name);
    let mut i: usize = 0;
    while i < entries.len()
        invariant
            0 <= i <= entries@.len(),
            target@ == name@,
            forall|j: int| 0 <= j < i ==> !(#[trigger] entries@[j].name@ == name@ && entries@[j].is_dir == dir),
        decreases entries@.len() - i,
    {
        if entries[i].is_dir == dir && entries[i].name.eq(&target) {
            return true;
        }
        i = i + 1;
    }
    false
}

} // verus!
