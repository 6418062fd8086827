//! Character-level text helpers: substring search, path joining and the
//! lower-casing that the library search relies on.

use vstd::prelude::*;
use vstd::string::*;
use vstd::utf8::is_ascii_chars;

verus! {

/// `needle` starts at index `i` of `hay`.
pub open spec fn occurs_at(hay: Seq<char>, needle: Seq<char>, i: int) -> bool {
    &&& 0 <= i
    &&& i + needle.len() <= hay.len()
    &&& hay.subrange(i, i + needle.len()) == needle
}

/// `needle` occurs somewhere in `hay` as a run of consecutive characters.
pub open spec fn is_substring(needle: Seq<char>, hay: Seq<char>) -> bool {
    exists|i: int| occurs_at(hay, needle, i)
}

/// What `str::to_lowercase` returns for a string with the given characters.
pub uninterp spec fn lowercase(s: Seq<char>) -> Seq<char>;

/// A character with the letters `A` to `Z` mapped to `a` to `z`.
pub open spec fn ascii_lower_char(c: char) -> char {
    if 65 <= c as u32 && c as u32 <= 90 {
        ((c as u32) + 32) as char
    } else {
        c
    }
}

/// A character with the letters `a` to `z` mapped to `A` to `Z`.
pub open spec fn ascii_upper_char(c: char) -> char {
    if 97 <= c as u32 && c as u32 <= 122 {
        ((c as u32) - 32) as char
    } else {
        c
    }
}

/// A text with the letters `A` to `Z` mapped to `a` to `z`, as
/// `str::to_ascii_lowercase` does.
pub open spec fn ascii_lower(s: Seq<char>) -> Seq<char> {
    s.map_values(|c: char| ascii_lower_char(c))
}

/// A text with the letters `a` to `z` mapped to `A` to `Z`, as
/// `str::to_ascii_uppercase` does.
pub open spec fn ascii_upper(s: Seq<char>) -> Seq<char> {
    s.map_values(|c: char| ascii_upper_char(c))
}

/// The lower-case form of a text: on a text of ASCII characters only, the
/// letters `A` to `Z` become `a` to `z` and every other character stays;
/// on any other text, what std's lower-casing gives.
pub open spec fn lowered(s: Seq<char>) -> Seq<char> {
    if is_ascii_chars(s) {
        ascii_lower(s)
    } else {
        lowercase(s)
    }
}

/// Calls `str::to_lowercase`. Trusted: the result depends on the characters
/// alone (Rust's lower-casing uses no locale); on a text of ASCII characters
/// only it maps `A` to `Z` to `a` to `z` one for one and keeps every other
/// character, as the Unicode lower-case mapping that std follows does for
/// ASCII. Beyond ASCII the mapping is left to the name [`lowercase`].
#[verifier::external_body]
pub(crate) fn to_lowercase(s: &str) -> (r: String)
    ensures
        is_ascii_chars(s@) ==> r@ == ascii_lower(s@),
        !is_ascii_chars(s@) ==> r@ == lowercase(s@),
{
    s.to_lowercase()
}

/// If `a` occurs in `b` and `b` occurs in `c`, then `a` occurs in `c`.
pub proof fn substring_transitive(a: Seq<char>, b: Seq<char>, c: Seq<char>)
    requires
        is_substring(a, b),
        is_substring(b, c),
    ensures
        is_substring(a, c),
{
    let i = choose|i: int| occurs_at(b, a, i);
    let j = choose|j: int| occurs_at(c, b, j);
    assert(c.subrange(j + i, j + i + a.len()) =~= c.subrange(j, j + b.len()).subrange(i, i + a.len()));
    assert(occurs_at(c, a, j + i));
}

/// Upper-casing an ASCII text and lower-casing it again gives its lower-case
/// form.
pub proof fn ascii_case_round_trip(q: Seq<char>)
    requires
        is_ascii_chars(q),
    ensures
        is_ascii_chars(ascii_upper(q)),
        lowered(ascii_upper(q)) == lowered(q),
{
    let u = ascii_upper(q);
    assert forall|i: int| 0 <= i < u.len() implies '\0' <= #[trigger] u[i] <= '\u{7f}' by {
        assert('\0' <= q[i] <= '\u{7f}');
        let c = q[i];
        if 97 <= c as u32 && c as u32 <= 122 {
            assert(((c as u32) - 32) as char as u32 == (c as u32) - 32);
        }
    }
    assert forall|i: int| 0 <= i < q.len() implies #[trigger] ascii_lower(u)[i] == ascii_lower(q)[i] by {
        let c = q[i];
        if 97 <= c as u32 && c as u32 <= 122 {
            let d = ((c as u32) - 32) as char;
            assert(d as u32 == (c as u32) - 32);
            assert(((d as u32) + 32) as char == c);
        } else if 65 <= c as u32 && c as u32 <= 90 {
        }
    }
    assert(ascii_lower(u) =~= ascii_lower(q));
}

/// The characters of `s`, in order.
pub fn chars_of(s: &str) -> (r: Vec<char>)
    ensures
        r@ == s@,
{
    broadcast use vstd::string::axiom_spec_iter;
    let mut v: Vec<char> = Vec::new();
    for c in it: s.chars()
        invariant
            it.seq() == s@,
            v@ == s@.take(it.index() as int),
    {
        v.push(c);
        assert(v@ =~= s@.take(it.index() + 1));
    }
    assert(v@ =~= s@);
    v
}

/// Whether `needle` appears in `hay` starting at index `i`.
fn matches_at(hay: &Vec<char>, needle: &Vec<char>, i: usize) -> (r: bool)
    requires
        i + needle@.len() <= hay@.len(),
    ensures
        r == occurs_at(hay@, needle@, i as int),
{
    let n = needle.len();
    let mut j: usize = 0;
    while j < n
        invariant
            n == needle@.len(),
            i + n <= hay.len(),
            j <= n,
            forall|k: int| 0 <= k < j ==> hay@[i + k] == needle@[k],
        decreases n - j,
    {
        if hay[i + j] != needle[j] {
            assert(hay@.subrange(i as int, i + n)[j as int] != needle@[j as int]);
            return false;
        }
        j = j + 1;
    }
    assert(hay@.subrange(i as int, i + n) =~= needle@);
    true
}

/// Substring test on character vectors: `needle` occurs in `hay`.
pub fn contains_chars(hay: &Vec<char>, needle: &Vec<char>) -> (r: bool)
    ensures
        r == is_substring(needle@, hay@),
{
    if needle.len() > hay.len() {
        assert forall|k: int| !occurs_at(hay@, needle@, k) by {}
        return false;
    }
    let last = hay.len() - needle.len();
    let mut i: usize = 0;
    loop
        invariant
            last == hay@.len() - needle@.len(),
            i <= last,
            forall|k: int| 0 <= k < i ==> !occurs_at(hay@, needle@, k),
        decreases last - i,
    {
        if matches_at(hay, needle, i) {
            return true;
        }
        if i == last {
            assert forall|k: int| !occurs_at(hay@, needle@, k) by {
                if 0 <= k <= i {
                } else {
                }
            }
            return false;
        }
        i = i + 1;
    }
}

/// Substring test on strings, the contract of `str::contains` with a string
/// pattern: `needle` occurs in `hay`.
pub fn str_contains(hay: &str, needle: &str) -> (r: bool)
    ensures
        r == is_substring(needle@, hay@),
{
    let h = chars_of(hay);
    let n = chars_of(needle);
    contains_chars(&h, &n)
}

/// The path of entry `name` inside directory `dir`, as the music database
/// writes it: the name alone at the top level, `dir/name` below it.
pub open spec fn joined_path(dir: Seq<char>, name: Seq<char>) -> Seq<char> {
    if dir.len() == 0 {
        name
    } else {
        dir + seq!['/'] + name
    }
}

/// Builds the database path of `name` inside `dir` (see [`joined_path`]).
pub fn join_path(dir: &str, name: &str) -> (r: String)
    ensures
        r@ == joined_path(dir@, name@),
{
    if dir.unicode_len() == 0 {
        String::from_str(name)
    } else {
        let mut r = String::from_str(dir);
        r.append("/");
        proof {
            reveal_strlit("/");
        }
        r.append(name);
        r
    }
}

} // verus!
