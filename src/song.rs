use vstd::prelude::*;

verus! {

/// What `slug::slugify` makes of a string of characters.
pub uninterp spec fn slugify_of(s: Seq<char>) -> Seq<char>;

/// A character that may stand in a slug: `a`-`z`, `0`-`9` or `-`.
pub open spec fn is_slug_char(c: char) -> bool {
    ('a' <= c && c <= 'z') || ('0' <= c && c <= '9') || c == '-'
}

/// The shape of a slug: lowercase ASCII letters, digits and single dashes,
/// never starting or ending with a dash.
pub open spec fn is_slug(s: Seq<char>) -> bool {
    &&& forall|i: int| 0 <= i < s.len() ==> is_slug_char(#[trigger] s[i])
    &&& forall|i: int| 0 <= i < s.len() - 1 ==> !(#[trigger] s[i] == '-' && s[i + 1] == '-')
    &&& s.len() > 0 ==> s[0] != '-' && s[s.len() - 1] != '-'
}

/// Relies on `slug::slugify`: its result has the shape of a slug (as its
/// documentation states), and a string of that shape goes through unchanged
/// (every character is kept as it is, no dash is added or dropped).
#[verifier::external_body]
fn slugify(s: &str) -> (r: String)
    ensures
        r@ == slugify_of(s@),
        is_slug(r@),
        slugify_of(r@) == r@,
{
    slug::slugify(s)
}

/// The file-system-safe identifier of a song name. Slugging a slug changes
/// nothing, so `slug(slug(name)) == slug(name)`.
pub fn slug(name: &str) -> (r: String)
    ensures
        r@ == slugify_of(name@),
        is_slug(r@),
        slugify_of(r@) == r@,
        slugify_of(slugify_of(name@)) == slugify_of(name@),
{
    slugify(name)
}

/// One library entry: the name it was entered under, its slug and artist.
/// Two names with the same slug name the same entry: the later save
/// overwrites the earlier one's files.
pub struct Song {
    pub name: String,
    pub slug: String,
    pub artist: String,
}

impl Song {
    pub open spec fn wf(&self) -> bool {
        self.slug@ == slugify_of(self.name@)
    }

    pub fn new(name: &str, artist_name: &str) -> (r: Song)
        ensures
            r.name@ == name@,
            r.slug@ == slugify_of(name@),
            r.artist@ == artist_name@,
            r.wf(),
            is_slug(r.slug@),
    {
        Song {
            name: String::from_str(name),
            slug: slug(name),
            artist: String::from_str(artist_name),
        }
    }
}

} // verus!
