//! The library search: which songs a query finds.

use vstd::prelude::*;
use crate::song::{Song, SongView, album_of, album_label_of, album_label, songs_view};
use crate::text::{is_substring, lowered, to_lowercase, chars_of, contains_chars};

verus! {

/// The query hits a field when the lower-cased query occurs in the
/// lower-cased field.
pub open spec fn query_hits(query: Seq<char>, field: Seq<char>) -> bool {
    is_substring(lowered(query), lowered(field))
}

/// A song matches a query when the query hits its title, its artist or the
/// label of its album.
pub open spec fn song_matches(s: SongView, query: Seq<char>) -> bool {
    ||| query_hits(query, s.title->0)
    ||| query_hits(query, s.artist->0)
    ||| query_hits(query, album_label_of(album_of(s)->0))
}

/// The fields the search reads are there: a title and an album always, an
/// artist whenever the title alone does not decide the match.
pub open spec fn search_defined(s: SongView, query: Seq<char>) -> bool {
    &&& s.title is Some
    &&& album_of(s) is Some
    &&& (query_hits(query, s.title->0) || s.artist is Some)
}

/// The songs of `library` that match `query`, in library order.
pub open spec fn search_result(library: Seq<SongView>, query: Seq<char>) -> Seq<SongView> {
    library.filter(|s: SongView| song_matches(s, query))
}

fn field_hit(field: &String, lowered_query: &Vec<char>, Ghost(query): Ghost<Seq<char>>) -> (r: bool)
    requires
        lowered_query@ == lowered(query),
    ensures
        r == query_hits(query, field@),
{
    let low = to_lowercase(field.as_str());
    let chars = chars_of(low.as_str());
    contains_chars(&chars, lowered_query)
}

fn song_hit(song: &Song, lowered_query: &Vec<char>, Ghost(query): Ghost<Seq<char>>) -> (r: bool)
    requires
        lowered_query@ == lowered(query),
        search_defined(song@, query),
    ensures
        r == song_matches(song@, query),
{
    let album = song.album();
    let label = match &album {
        Some(a) => album_label(a.as_str()),
        None => String::new(),
    };
    let title = match &song.title {
        Some(t) => t,
        None => {
            return false;
        },
    };
    if field_hit(title, lowered_query, Ghost(query)) {
        return true;
    }
    let artist_hit = match &song.artist {
        Some(a) => field_hit(a, lowered_query, Ghost(query)),
        None => false,
    };
    artist_hit || field_hit(&label, lowered_query, Ghost(query))
}

/// Searches the library: the songs whose title, artist or album label
/// contains the query, ignoring case, in library order. Every song must
/// carry the fields the search reads (see [`search_defined`]).
pub fn search_songs(library: &Vec<Song>, query: &str) -> (r: Vec<Song>)
    requires
        forall|i: int| 0 <= i < library@.len() ==> search_defined(#[trigger] library@[i]@, query@),
    ensures
        songs_view(r@) == search_result(songs_view(library@), query@),
{
    let low = to_lowercase(query);
    let lq = chars_of(low.as_str());
    let ghost lib = songs_view(library@);
    let ghost pred = |s: SongView| song_matches(s, query@);
    let mut r: Vec<Song> = Vec::new();
    let mut i: usize = 0;
    while i < library.len()
        invariant
            i <= library@.len(),
            lib == songs_view(library@),
            lq@ == lowered(query@),
            pred == (|s: SongView| song_matches(s, query@)),
            forall|j: int| 0 <= j < library@.len() ==> search_defined(#[trigger] library@[j]@, query@),
            songs_view(r@) == lib.take(i as int).filter(pred),
        decreases library@.len() - i,
    {
        proof {
            reveal_with_fuel(Seq::<_>::filter, 1);
            assert(lib.take(i + 1).drop_last() =~= lib.take(i as int));
            assert(lib.take(i + 1).last() == library@[i as int]@);
        }
        let ghost before = songs_view(r@);
        if song_hit(&library[i], &lq, Ghost(query@)) {
            r.push(library[i].clone());
            assert(songs_view(r@) =~= before.push(library@[i as int]@));
        }
        i = i + 1;
    }
    assert(lib.take(library@.len() as int) =~= lib);
    r
}

/// Whether every song of `library` carries the fields that a search for
/// `query` reads (see [`search_defined`]), so that [`search_songs`] may run.
pub fn library_searchable(library: &Vec<Song>, query: &str) -> (r: bool)
    ensures
        r == forall|i: int| 0 <= i < library@.len() ==> search_defined(#[trigger] library@[i]@, query@),
{
    let low = to_lowercase(query);
    let lq = chars_of(low.as_str());
    let mut i: usize = 0;
    while i < library.len()
        invariant
            i <= library@.len(),
            lq@ == lowered(query@),
            forall|j: int| 0 <= j < i ==> search_defined(#[trigger] library@[j]@, query@),
        decreases library@.len() - i,
    {
        let song = &library[i];
        if song.album().is_none() {
            return false;
        }
        let title_hit = match &song.title {
            Some(t) => field_hit(t, &lq, Ghost(query@)),
            None => {
                return false;
            },
        };
        if !title_hit && song.artist.is_none() {
            return false;
        }
        i = i + 1;
    }
    true
}

} // verus!
