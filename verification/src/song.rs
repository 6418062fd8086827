//! The song record that the daemon reports, held as plain values, with the
//! comparisons and tag lookups that the views make on it.

use vstd::prelude::*;
use vstd::string::*;

verus! {

/// Where a song stands in the play queue.
#[derive(Clone, Copy, PartialEq, Eq, Structural, Debug)]
pub struct QueuePlace {
    /// The song's id in the queue.
    pub id: u32,
    /// Its zero-based position in the queue.
    pub pos: u32,
    /// Its priority.
    pub prio: u8,
}

/// A song as the music daemon describes it.
pub struct Song {
    /// The file's path inside the music directory.
    pub file: String,
    /// The stream name, for streams.
    pub name: Option<String>,
    pub title: Option<String>,
    /// The last modification time, as the daemon writes it.
    pub last_mod: Option<String>,
    pub artist: Option<String>,
    /// The length in whole seconds.
    pub duration_secs: Option<u64>,
    /// The place in the queue, for queued songs.
    pub place: Option<QueuePlace>,
    /// The range to play, when one was set.
    pub range: Option<(Option<u32>, Option<u32>)>,
    /// All tags, in the order the daemon sent them.
    pub tags: Vec<(String, String)>,
}

/// The characters of an optional string.
pub open spec fn opt_str(o: Option<String>) -> Option<Seq<char>> {
    match o {
        Some(s) => Some(s@),
        None => None,
    }
}

/// The characters of each tag name and value.
pub open spec fn tags_view(t: Seq<(String, String)>) -> Seq<(Seq<char>, Seq<char>)> {
    t.map_values(|p: (String, String)| (p.0@, p.1@))
}

/// The mathematical value of a [`Song`].
pub struct SongView {
    pub file: Seq<char>,
    pub name: Option<Seq<char>>,
    pub title: Option<Seq<char>>,
    pub last_mod: Option<Seq<char>>,
    pub artist: Option<Seq<char>>,
    pub duration_secs: Option<u64>,
    pub place: Option<QueuePlace>,
    pub range: Option<(Option<u32>, Option<u32>)>,
    pub tags: Seq<(Seq<char>, Seq<char>)>,
}

impl vstd::view::View for Song {
    type V = SongView;

    open spec fn view(&self) -> SongView {
        SongView {
            file: self.file@,
            name: opt_str(self.name),
            title: opt_str(self.title),
            last_mod: opt_str(self.last_mod),
            artist: opt_str(self.artist),
            duration_secs: self.duration_secs,
            place: self.place,
            range: self.range,
            tags: tags_view(self.tags@),
        }
    }
}

/// The values of a list of songs.
pub open spec fn songs_view(s: Seq<Song>) -> Seq<SongView> {
    s.map_values(|x: Song| x@)
}

/// The value of the tag `key`: the value of its last occurrence, as a map
/// built from the tags in order keeps it.
pub open spec fn last_tag_value(tags: Seq<(Seq<char>, Seq<char>)>, key: Seq<char>) -> Option<Seq<char>>
    decreases tags.len(),
{
    if tags.len() == 0 {
        None
    } else if tags.last().0 == key {
        Some(tags.last().1)
    } else {
        last_tag_value(tags.drop_last(), key)
    }
}

/// The album of a song: its `Album` tag.
pub open spec fn album_of(s: SongView) -> Option<Seq<char>> {
    last_tag_value(s.tags, "Album"@)
}

/// The label under which a song's album is shown: the album, a space and an
/// arrow that marks it as a link.
pub open spec fn album_label_of(album: Seq<char>) -> Seq<char> {
    album + seq![' ', '\u{2934}']
}

fn copy_opt_str(o: &Option<String>) -> (r: Option<String>)
    ensures
        opt_str(r) == opt_str(*o),
{
    match o {
        Some(s) => Some(s.clone()),
        None => None,
    }
}

fn opt_str_eq(a: &Option<String>, b: &Option<String>) -> (r: bool)
    ensures
        r == (opt_str(*a) == opt_str(*b)),
{
    match (a, b) {
        (Some(x), Some(y)) => x.eq(y),
        (None, None) => true,
        _ => false,
    }
}

fn opt_u64_eq(a: Option<u64>, b: Option<u64>) -> (r: bool)
    ensures
        r == (a == b),
{
    match (a, b) {
        (Some(x), Some(y)) => x == y,
        (None, None) => true,
        _ => false,
    }
}

fn opt_u32_eq(a: Option<u32>, b: Option<u32>) -> (r: bool)
    ensures
        r == (a == b),
{
    match (a, b) {
        (Some(x), Some(y)) => x == y,
        (None, None) => true,
        _ => false,
    }
}

fn place_eq(a: Option<QueuePlace>, b: Option<QueuePlace>) -> (r: bool)
    ensures
        r == (a == b),
{
    match (a, b) {
        (Some(x), Some(y)) => x.id == y.id && x.pos == y.pos && x.prio == y.prio,
        (None, None) => true,
        _ => false,
    }
}

fn range_eq(a: Option<(Option<u32>, Option<u32>)>, b: Option<(Option<u32>, Option<u32>)>) -> (r:
    bool)
    ensures
        r == (a == b),
{
    match (a, b) {
        (Some(x), Some(y)) => opt_u32_eq(x.0, y.0) && opt_u32_eq(x.1, y.1),
        (None, None) => true,
        _ => false,
    }
}

fn copy_tags(t: &Vec<(String, String)>) -> (r: Vec<(String, String)>)
    ensures
        tags_view(r@) == tags_view(t@),
{
    let mut r: Vec<(String, String)> = Vec::new();
    let mut i: usize = 0;
    while i < t.len()
        invariant
            i <= t@.len(),
            r@.len() == i,
            forall|k: int| 0 <= k < i ==> #[trigger] r@[k].0@ == t@[k].0@ && r@[k].1@ == t@[k].1@,
        decreases t@.len() - i,
    {
        let k = t[i].0.clone();
        let v = t[i].1.clone();
        r.push((k, v));
        i = i + 1;
    }
    assert(tags_view(r@) =~= tags_view(t@));
    r
}

fn tags_eq(a: &Vec<(String, String)>, b: &Vec<(String, String)>) -> (r: bool)
    ensures
        r == (tags_view(a@) == tags_view(b@)),
{
    if a.len() != b.len() {
        assert(tags_view(a@).len() != tags_view(b@).len());
        return false;
    }
    let mut i: usize = 0;
    while i < a.len()
        invariant
            a@.len() == b@.len(),
            i <= a@.len(),
            forall|k: int| 0 <= k < i ==> tags_view(a@)[k] == tags_view(b@)[k],
        decreases a@.len() - i,
    {
        if !a[i].0.eq(&b[i].0) || !a[i].1.eq(&b[i].1) {
            assert(tags_view(a@)[i as int] != tags_view(b@)[i as int]);
            return false;
        }
        i = i + 1;
    }
    assert(tags_view(a@) =~= tags_view(b@));
    true
}

impl Clone for Song {
    fn clone(&self) -> (r: Song)
        ensures
            r@ == self@,
    {
        Song {
            file: self.file.clone(),
            name: copy_opt_str(&self.name),
            title: copy_opt_str(&self.title),
            last_mod: copy_opt_str(&self.last_mod),
            artist: copy_opt_str(&self.artist),
            duration_secs: self.duration_secs,
            place: self.place,
            range: self.range,
            tags: copy_tags(&self.tags),
        }
    }
}

impl Song {
    /// Whether two songs are the same in every field the daemon reports.
    pub fn same_song(&self, other: &Song) -> (r: bool)
        ensures
            r == (self@ == other@),
    {
        self.file.eq(&other.file) && opt_str_eq(&self.name, &other.name) && opt_str_eq(
            &self.title,
            &other.title,
        ) && opt_str_eq(&self.last_mod, &other.last_mod) && opt_str_eq(&self.artist, &other.artist)
            && opt_u64_eq(self.duration_secs, other.duration_secs) && place_eq(
            self.place,
            other.place,
        ) && range_eq(self.range, other.range) && tags_eq(&self.tags, &other.tags)
    }

    /// The value of tag `key`; where the tag occurs more than once, the last
    /// occurrence wins.
    pub fn tag_value(&self, key: &str) -> (r: Option<String>)
        ensures
            opt_str(r) == last_tag_value(self@.tags, key@),
    {
        let ghost tv = self@.tags;
        let k = String::from_str(key);
        let mut i: usize = self.tags.len();
        assert(tv.subrange(0, i as int) =~= tv);
        while i > 0
            invariant
                i <= self.tags@.len(),
                tv == tags_view(self.tags@),
                k@ == key@,
                last_tag_value(tv, key@) == last_tag_value(tv.subrange(0, i as int), key@),
            decreases i,
        {
            let ghost pre = tv.subrange(0, i as int);
            assert(pre.drop_last() =~= tv.subrange(0, i - 1));
            assert(pre.last() == tv[i - 1]);
            assert(tv[i - 1] == (self.tags@[i - 1].0@, self.tags@[i - 1].1@));
            if self.tags[i - 1].0.eq(&k) {
                return Some(self.tags[i - 1].1.clone());
            }
            i = i - 1;
        }
        None
    }

    /// The album of the song: its `Album` tag.
    pub fn album(&self) -> (r: Option<String>)
        ensures
            opt_str(r) == album_of(self@),
    {
        self.tag_value("Album")
    }
}

/// The label shown for an album (see [`album_label_of`]).
pub fn album_label(album: &str) -> (r: String)
    ensures
        r@ == album_label_of(album@),
{
    let mut s = String::from_str(album);
    s.append(" \u{2934}");
    proof {
        reveal_strlit(" \u{2934}");
    }
    s
}

/// Copies a list of songs.
pub fn copy_songs(v: &Vec<Song>) -> (r: Vec<Song>)
    ensures
        songs_view(r@) == songs_view(v@),
{
    let mut r: Vec<Song> = Vec::new();
    let mut i: usize = 0;
    while i < v.len()
        invariant
            i <= v@.len(),
            r@.len() == i,
            forall|k: int| 0 <= k < i ==> #[trigger] r@[k]@ == v@[k]@,
        decreases v@.len() - i,
    {
        r.push(v[i].clone());
        i = i + 1;
    }
    assert(songs_view(r@) =~= songs_view(v@));
    r
}

} // verus!
