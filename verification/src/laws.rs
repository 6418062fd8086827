//! Properties that relate several operations of the library.

use vstd::prelude::*;
use vstd::view::View as _;
use crate::config::{
    ConfigView, address_applied, dark_mode_toggled, is_music_name, notifications_toggled,
    stored_config,
};
use crate::scan::{driven, walk_fits, walked_files, wanted_steps};
use crate::search::{query_hits, search_result, song_matches};
use crate::song::{SongView, album_label_of, album_of, last_tag_value};
use crate::state::{
    Control, TmpDataView, View, after_control, confirm_answered, library_read, run_controls,
    sidebar_toggled, song_differs, song_observed, song_picked, tmp_data_wf,
};
use crate::text::{
    joined_path, ascii_case_round_trip, ascii_upper, is_substring, lowered, occurs_at, substring_transitive,
};
use vstd::utf8::is_ascii_chars;

verus! {

/// Pressing the sidebar button twice leaves the interface as it was.
pub proof fn sidebar_button_twice_restores(v: TmpDataView)
    ensures
        sidebar_toggled(sidebar_toggled(v)) == v,
{
    assert(sidebar_toggled(sidebar_toggled(v)) =~= v);
}

/// Pressing the dark mode button twice leaves the settings as they were.
pub proof fn dark_mode_twice_restores(c: ConfigView)
    ensures
        dark_mode_toggled(dark_mode_toggled(c)) == c,
{
}

/// Pressing the notifications button twice leaves the settings as they
/// were.
pub proof fn notifications_twice_restores(c: ConfigView)
    ensures
        notifications_toggled(notifications_toggled(c)) == c,
{
}

/// Closing the settings window twice writes the same settings as closing it
/// once, and what it writes keeps the address in use.
pub proof fn storing_is_idempotent(c: ConfigView)
    ensures
        stored_config(stored_config(c)) == stored_config(c),
        stored_config(c).mpd_address == c.mpd_address,
        stored_config(c).tmp_address == c.mpd_address,
{
}

/// Once a daemon answered at the typed address and it was applied, closing
/// the settings window writes that address as the one in use.
pub proof fn applied_address_is_stored(c: ConfigView)
    ensures
        stored_config(address_applied(c, true)).mpd_address == c.tmp_address,
        stored_config(address_applied(c, true)).tmp_address == c.tmp_address,
{
}

/// Picking a song for the new playlist a second time changes nothing; after
/// a pick the song is among the picked ones, and no song is ever picked
/// twice.
pub proof fn picking_is_idempotent(v: TmpDataView, s: SongView)
    requires
        tmp_data_wf(v),
    ensures
        song_picked(song_picked(v, s), s) == song_picked(v, s),
        song_picked(v, s).add_playlist_songs.contains(s),
        tmp_data_wf(song_picked(v, s)),
{
    if !v.add_playlist_songs.contains(s) {
        let p = v.add_playlist_songs.push(s);
        assert(p[p.len() - 1] == s);
        assert(p.contains(s));
        assert forall|i: int, j: int| 0 <= i < j < p.len() implies p[i] != p[j] by {
            if j == p.len() - 1 {
                assert(v.add_playlist_songs[i] == p[i]);
            }
        }
    }
}

/// Seeing the same song twice in a row, the footer reports no change the
/// second time.
pub proof fn same_song_twice_is_no_change(v: TmpDataView, s: SongView)
    ensures
        !song_differs(song_observed(v, s), s),
        song_observed(song_observed(v, s), s) == song_observed(v, s),
{
}

/// Any answer closes the confirmation window; without one it stays as it
/// was.
pub proof fn an_answer_closes_the_confirmation(v: TmpDataView, yes: bool, no: bool)
    ensures
        (yes || no) ==> !confirm_answered(v, yes, no).confirm_open,
        !(yes || no) ==> confirm_answered(v, yes, no) == v,
{
}

/// The search finds only songs of the library, each of which matches the
/// query, and never more songs than the library holds.
pub proof fn search_finds_matching_library_songs(library: Seq<SongView>, query: Seq<char>)
    ensures
        search_result(library, query).len() <= library.len(),
        forall|i: int|
            0 <= i < search_result(library, query).len() ==> library.contains(
                #[trigger] search_result(library, query)[i],
            ) && song_matches(search_result(library, query)[i], query),
{
    broadcast use vstd::seq_lib::group_filter_ensures;

    let pred = |s: SongView| song_matches(s, query);
    assert forall|i: int| 0 <= i < search_result(library, query).len() implies library.contains(
        #[trigger] search_result(library, query)[i],
    ) && song_matches(search_result(library, query)[i], query) by {
        let f = library.filter(pred);
        assert(f.contains(f[i]));
        library.lemma_filter_contains_rev(pred, f[i]);
        library.lemma_filter_pred(pred, i);
    }
}

/// The empty text occurs in every text.
pub proof fn empty_occurs_everywhere(hay: Seq<char>)
    ensures
        is_substring(Seq::<char>::empty(), hay),
{
    assert(hay.subrange(0, 0) =~= Seq::<char>::empty());
    assert(occurs_at(hay, Seq::<char>::empty(), 0));
}

/// A query whose lower-case form is empty, the empty query among them,
/// finds every song of the library.
pub proof fn empty_query_finds_everything(library: Seq<SongView>, query: Seq<char>)
    requires
        lowered(query).len() == 0,
    ensures
        search_result(library, query) == library,
        search_result(library, Seq::<char>::empty()) == library,
    decreases library.len(),
{
    reveal_with_fuel(Seq::<_>::filter, 1);
    assert(is_ascii_chars(Seq::<char>::empty()));
    assert(lowered(Seq::<char>::empty()) =~= Seq::<char>::empty());
    if library.len() == 0 {
        assert(search_result(library, query) =~= library);
        assert(search_result(library, Seq::<char>::empty()) =~= library);
    } else {
        let init = library.drop_last();
        empty_query_finds_everything(init, query);
        let s = library.last();
        assert(lowered(query) =~= Seq::<char>::empty());
        empty_occurs_everywhere(lowered(s.title->0));
        assert(song_matches(s, query));
        assert(is_ascii_chars(Seq::<char>::empty()));
        assert(lowered(Seq::<char>::empty()) =~= Seq::<char>::empty());
        assert(song_matches(s, Seq::<char>::empty()));
        assert(library.drop_last() =~= init);
        assert(init.push(s) =~= library);
    }
}

/// Filtering by a predicate that implies another gives the same as
/// filtering by the other first.
pub proof fn filter_by_stronger<A>(s: Seq<A>, weak: spec_fn(A) -> bool, strong: spec_fn(A) -> bool)
    requires
        forall|x: A| #[trigger] strong(x) ==> weak(x),
    ensures
        s.filter(strong) == s.filter(weak).filter(strong),
    decreases s.len(),
{
    reveal_with_fuel(Seq::<_>::filter, 1);
    if s.len() > 0 {
        let init = s.drop_last();
        let x = s.last();
        filter_by_stronger(init, weak, strong);
        if weak(x) {
            let w = init.filter(weak).push(x);
            assert(w.drop_last() =~= init.filter(weak));
            assert(w.last() == x);
        }
    }
}

/// A longer query never finds more: when the lower-cased shorter query
/// occurs in the lower-cased longer one, the songs the longer query finds
/// are exactly those among the shorter query's finds that it matches, so
/// they form a subsequence of them.
pub proof fn longer_query_finds_less(library: Seq<SongView>, shorter: Seq<char>, longer: Seq<char>)
    requires
        is_substring(lowered(shorter), lowered(longer)),
    ensures
        search_result(library, longer) == search_result(library, shorter).filter(
            |s: SongView| song_matches(s, longer),
        ),
{
    let weak = |s: SongView| song_matches(s, shorter);
    let strong = |s: SongView| song_matches(s, longer);
    assert forall|x: SongView| #[trigger] strong(x) implies weak(x) by {
        let t = x.title->0;
        let a = x.artist->0;
        let l = crate::song::album_label_of(crate::song::album_of(x)->0);
        if query_hits(longer, t) {
            substring_transitive(lowered(shorter), lowered(longer), lowered(t));
        } else if query_hits(longer, a) {
            substring_transitive(lowered(shorter), lowered(longer), lowered(a));
        } else {
            substring_transitive(lowered(shorter), lowered(longer), lowered(l));
        }
    }
    filter_by_stronger(library, weak, strong);
}

/// The search ignores the case of ASCII letters in the query: an ASCII
/// query and its upper-case form find the same songs.
pub proof fn query_case_is_ignored(library: Seq<SongView>, query: Seq<char>)
    requires
        is_ascii_chars(query),
    ensures
        search_result(library, ascii_upper(query)) == search_result(library, query),
{
    ascii_case_round_trip(query);
    let p = |s: SongView| song_matches(s, query);
    let u = |s: SongView| song_matches(s, ascii_upper(query));
    assert(p =~= u);
}

/// When the same tag occurs more than once, the value added last is the
/// one looked up.
pub proof fn last_tag_wins(tags: Seq<(Seq<char>, Seq<char>)>, key: Seq<char>, value: Seq<char>)
    ensures
        last_tag_value(tags.push((key, value)), key) == Some(value),
{
}

/// Right after a directory's listing is handed to the walk, its steps are
/// the next ones taken, in listing order: counting from the top of the
/// pending steps, the `k`-th one is the listing's `k`-th subdirectory or
/// music file, and the steps pending before stay underneath.
pub proof fn listing_is_walked_in_order(
    pending: Seq<(bool, Seq<char>)>,
    dir: Seq<char>,
    entries: Seq<(Seq<char>, Seq<char>)>,
    filetypes: Seq<Seq<char>>,
)
    ensures
        ({
            let w = wanted_steps(dir, entries, filetypes);
            let after = pending + w.reverse();
            &&& after.len() == pending.len() + w.len()
            &&& forall|k: int| 0 <= k < w.len() ==> #[trigger] after[after.len() - 1 - k] == w[k]
            &&& after.subrange(0, pending.len() as int) == pending
        }),
{
    let w = wanted_steps(dir, entries, filetypes);
    let after = pending + w.reverse();
    assert(after.subrange(0, pending.len() as int) =~= pending);
    assert forall|k: int| 0 <= k < w.len() implies #[trigger] after[after.len() - 1 - k] == w[k] by {
        assert(after[after.len() - 1 - k] == w.reverse()[w.len() - 1 - k]);
    }
}

/// Running `n1` requests and then `n2` more is running `n1 + n2`.
pub proof fn driven_in_two(
    listings: spec_fn(Seq<char>) -> Seq<(Seq<char>, Seq<char>)>,
    filetypes: Seq<Seq<char>>,
    pending: Seq<(bool, Seq<char>)>,
    n1: nat,
    n2: nat,
)
    ensures
        ({
            let a = driven(listings, filetypes, pending, n1);
            let b = driven(listings, filetypes, a.1, n2);
            let all = driven(listings, filetypes, pending, n1 + n2);
            all.0 == a.0 + b.0 && all.1 == b.1
        }),
    decreases n1,
{
    let a = driven(listings, filetypes, pending, n1);
    let b = driven(listings, filetypes, a.1, n2);
    if n1 == 0 {
        assert(a.0 + b.0 =~= b.0);
    } else if pending.len() == 0 {
        assert(driven(listings, filetypes, pending, n2) == (Seq::<Seq<char>>::empty(), pending)) by {
            if n2 > 0 {
            }
        }
        assert(a.0 + b.0 =~= b.0);
    } else {
        let top = pending.last();
        let below = pending.drop_last();
        let m = (n1 - 1) as nat;
        assert((n1 + n2 - 1) as nat == m + n2);
        if top.0 {
            let next = below + wanted_steps(top.1, listings(top.1), filetypes).reverse();
            driven_in_two(listings, filetypes, next, m, n2);
        } else {
            driven_in_two(listings, filetypes, below, m, n2);
            let r = driven(listings, filetypes, below, m);
            assert(seq![top.1] + r.0 + b.0 =~= seq![top.1] + (r.0 + b.0));
        }
    }
}

/// Walking the steps `steps` on top of the pending steps `below` looks up
/// the files of [`walked_files`], in that order, and then leaves `below`
/// as it was; the result is how many requests that takes.
pub proof fn steps_are_walked_depth_first(
    listings: spec_fn(Seq<char>) -> Seq<(Seq<char>, Seq<char>)>,
    filetypes: Seq<Seq<char>>,
    below: Seq<(bool, Seq<char>)>,
    steps: Seq<(bool, Seq<char>)>,
    depth: nat,
) -> (n: nat)
    requires
        walk_fits(listings, filetypes, steps, depth),
    ensures
        driven(listings, filetypes, below + steps.reverse(), n).0 == walked_files(
            listings,
            filetypes,
            steps,
            depth,
        ),
        driven(listings, filetypes, below + steps.reverse(), n).1 == below,
    decreases depth, steps.len(),
{
    reveal_with_fuel(driven, 2);
    if steps.len() == 0 {
        assert(below + steps.reverse() =~= below);
        assert(driven(listings, filetypes, below, 0).0 =~= walked_files(listings, filetypes, steps, depth));
        0
    } else {
        let x = steps[0];
        let tail = steps.drop_first();
        let base = below + tail.reverse();
        let start = below + steps.reverse();
        assert(steps =~= seq![x] + tail);
        assert(steps.reverse() =~= tail.reverse().push(x));
        assert(start =~= base.push(x));
        assert(start.last() == x);
        assert(start.drop_last() =~= base);
        let m2 = steps_are_walked_depth_first(listings, filetypes, below, tail, depth);
        if x.0 {
            let kids = wanted_steps(x.1, listings(x.1), filetypes);
            let m1 = steps_are_walked_depth_first(listings, filetypes, base, kids, (depth - 1) as nat);
            let after_one = driven(listings, filetypes, start, 1);
            assert(after_one.1 == base + kids.reverse());
            assert(after_one.0 =~= Seq::<Seq<char>>::empty());
            driven_in_two(listings, filetypes, start, 1, m1 + m2);
            driven_in_two(listings, filetypes, base + kids.reverse(), m1, m2);
            let w1 = walked_files(listings, filetypes, kids, (depth - 1) as nat);
            let w2 = walked_files(listings, filetypes, tail, depth);
            assert(Seq::<Seq<char>>::empty() + (w1 + w2) =~= w1 + w2);
            1 + m1 + m2
        } else {
            let after_one = driven(listings, filetypes, start, 1);
            assert(after_one.1 == base);
            assert(after_one.0 =~= seq![x.1]);
            driven_in_two(listings, filetypes, start, 1, m2);
            1 + m2
        }
    }
}

/// Reading the library looks up every music file of the music directory,
/// depth first in listing order, and then ends: a walk started by
/// [`LibraryScan::new`](crate::scan::LibraryScan::new), whose directory
/// requests are answered with `listings`, looks up exactly
/// [`walked_files`] from the top directory, in order, after which no step
/// is pending. The files looked up depend on the listings alone, so reading
/// an unchanged library again looks up the same files in the same order.
pub proof fn library_walk_is_depth_first(
    listings: spec_fn(Seq<char>) -> Seq<(Seq<char>, Seq<char>)>,
    filetypes: Seq<Seq<char>>,
    depth: nat,
) -> (n: nat)
    requires
        walk_fits(listings, filetypes, seq![(true, Seq::<char>::empty())], depth),
    ensures
        driven(listings, filetypes, seq![(true, Seq::<char>::empty())], n).0 == walked_files(
            listings,
            filetypes,
            seq![(true, Seq::<char>::empty())],
            depth,
        ),
        driven(listings, filetypes, seq![(true, Seq::<char>::empty())], n).1.len() == 0,
{
    let root = seq![(true, Seq::<char>::empty())];
    let empty = Seq::<(bool, Seq<char>)>::empty();
    assert(empty + root.reverse() =~= root);
    steps_are_walked_depth_first(listings, filetypes, empty, root, depth)
}

/// Running the controls `a` and then the controls `b` is running `a`
/// followed by `b`.
pub proof fn controls_in_two(v: TmpDataView, a: Seq<Control>, b: Seq<Control>)
    ensures
        run_controls(v, a + b) == run_controls(run_controls(v, a), b),
    decreases b.len(),
{
    if b.len() == 0 {
        assert(a + b =~= a);
    } else {
        assert((a + b).drop_last() =~= a + b.drop_last());
        assert((a + b).last() == b.last());
        controls_in_two(v, a, b.drop_last());
    }
}

/// Every control keeps what holds of every interface state (see
/// [`tmp_data_wf`]), so every run of controls from such a state does too.
pub proof fn controls_keep_the_invariant(v: TmpDataView, cs: Seq<Control>)
    requires
        tmp_data_wf(v),
    ensures
        tmp_data_wf(run_controls(v, cs)),
    decreases cs.len(),
{
    if cs.len() > 0 {
        controls_keep_the_invariant(v, cs.drop_last());
        let u = run_controls(v, cs.drop_last());
        match cs.last() {
            Control::PickForNewPlaylist(s) => {
                picking_is_idempotent(u, s);
            },
            _ => {},
        }
    }
}

/// Once the first frame is marked drawn, no control makes the interface
/// take it for the first again: from a state past the first frame every run
/// of controls stays past it, and so does every run that marks the first
/// frame drawn at some point.
pub proof fn first_run_never_returns(v: TmpDataView, cs: Seq<Control>)
    ensures
        !v.first_run ==> !run_controls(v, cs).first_run,
        cs.contains(Control::FinishFirstRun) ==> !run_controls(v, cs).first_run,
    decreases cs.len(),
{
    if cs.len() > 0 {
        let p = cs.drop_last();
        first_run_never_returns(v, p);
        if cs.contains(Control::FinishFirstRun) && cs.last() != Control::FinishFirstRun {
            let i = choose|i: int| 0 <= i < cs.len() && cs[i] == Control::FinishFirstRun;
            assert(i < cs.len() - 1);
            assert(p[i] == cs[i]);
            assert(p.contains(Control::FinishFirstRun));
        }
    }
}

/// Reading the library leaves exactly the songs found, in the order found,
/// whatever the library held before. So reading it a second time while the
/// daemon's database is unchanged, which finds the same songs, gives the
/// same list as reading it once: no song is added twice.
pub proof fn reading_the_library_twice_gives_one_list(v: TmpDataView, found: Seq<SongView>)
    ensures
        run_controls(v, library_read(found)).songlist == found,
        run_controls(v, library_read(found) + library_read(found)).songlist == found,
{
    library_read_gives_found(v, found);
    library_read_gives_found(run_controls(v, library_read(found)), found);
    controls_in_two(v, library_read(found), library_read(found));
}

proof fn library_read_gives_found(v: TmpDataView, found: Seq<SongView>)
    ensures
        run_controls(v, library_read(found)).songlist == found,
    decreases found.len(),
{
    if found.len() == 0 {
        let cs = library_read(found);
        assert(cs.drop_last() =~= seq![Control::ClearLibrary]);
        assert(cs.drop_last().drop_last() =~= Seq::<Control>::empty());
        assert(run_controls(v, cs).songlist =~= found);
    } else {
        let p = found.drop_last();
        library_read_gives_found(v, p);
        let cs = library_read(found);
        assert(cs.drop_last() =~= library_read(p));
        assert(p.push(found.last()) =~= found);
    }
}

/// Closing the settings window writes every setting as the user left it:
/// only the typed address is replaced, by the address in use. So a setting
/// changed before closing is the one found at the next start.
pub proof fn storing_keeps_every_setting(c: ConfigView)
    ensures
        stored_config(c).dark_mode == c.dark_mode,
        stored_config(c).notifications == c.notifications,
        stored_config(c).mpd_address == c.mpd_address,
        stored_config(c).music_path == c.music_path,
        stored_config(c).tmp_music_path == c.tmp_music_path,
        stored_config(c).filetypes == c.filetypes,
        stored_config(c).tmp_address == c.mpd_address,
        stored_config(notifications_toggled(c)).notifications == !c.notifications,
        stored_config(notifications_toggled(c)).dark_mode == c.dark_mode,
        stored_config(dark_mode_toggled(c)).dark_mode == !c.dark_mode,
        stored_config(dark_mode_toggled(c)).notifications == c.notifications,
{
}

/// Selecting a saved playlist shows exactly that playlist, whatever was
/// selected before: a second selection replaces the first.
pub proof fn the_playlist_selected_last_is_shown(v: TmpDataView, first: Seq<char>, name: Seq<char>)
    ensures
        after_control(v, Control::SelectPlaylist(name)).selected_playlist == seq![name],
        after_control(v, Control::SelectPlaylist(name)).view == View::Playlist,
        after_control(
            after_control(v, Control::SelectPlaylist(first)),
            Control::SelectPlaylist(name),
        ).selected_playlist == seq![name],
{
}

/// The footer reports a change exactly when the song now playing differs in
/// any way from the one seen before, its queue place included; before any
/// song was seen it reports none.
pub proof fn any_difference_is_a_song_change(v: TmpDataView, seen: SongView, current: SongView)
    ensures
        song_differs(song_observed(v, seen), current) <==> seen != current,
        seen.place != current.place ==> song_differs(song_observed(v, seen), current),
        seen.file != current.file ==> song_differs(song_observed(v, seen), current),
        v.prev_song.len() == 0 ==> !song_differs(v, current),
        song_observed(v, seen).prev_song == seq![seen],
{
}

/// Looking a tag up finds the value of the last tag whose name is exactly
/// the key, and nothing when no tag has that name: a tag with another name,
/// one that contains the key among them, never decides the lookup.
pub proof fn tag_lookup_is_by_exact_name(
    tags: Seq<(Seq<char>, Seq<char>)>,
    key: Seq<char>,
    other: Seq<char>,
    value: Seq<char>,
)
    ensures
        other != key ==> last_tag_value(tags.push((other, value)), key) == last_tag_value(tags, key),
        (last_tag_value(tags, key) is None) <==> (forall|i: int|
            0 <= i < tags.len() ==> #[trigger] tags[i].0 != key),
        forall|i: int|
            0 <= i < tags.len() && #[trigger] tags[i].0 == key && (forall|j: int|
                i < j < tags.len() ==> tags[j].0 != key) ==> last_tag_value(tags, key) == Some(
                tags[i].1,
            ),
    decreases tags.len(),
{
    assert(tags.push((other, value)).drop_last() =~= tags);
    if tags.len() > 0 {
        let p = tags.drop_last();
        tag_lookup_is_by_exact_name(p, key, other, value);
        assert forall|i: int| 0 <= i < p.len() implies p[i] == tags[i] by {}
        if last_tag_value(tags, key) is None {
            assert forall|i: int| 0 <= i < tags.len() implies #[trigger] tags[i].0 != key by {
                if i < tags.len() - 1 {
                    assert(p[i] == tags[i]);
                }
            }
        }
        assert forall|i: int|
            0 <= i < tags.len() && #[trigger] tags[i].0 == key && (forall|j: int|
                i < j < tags.len() ==> tags[j].0 != key) implies last_tag_value(tags, key) == Some(
            tags[i].1,
        ) by {
            if i < tags.len() - 1 {
                assert(tags[tags.len() - 1].0 != key);
                assert(p[i] == tags[i]);
                assert forall|j: int| i < j < p.len() implies p[j].0 != key by {
                    assert(p[j] == tags[j]);
                }
            }
        }
    }
}

/// Whether `step` is the step that the listing entry `e` of directory
/// `dir` calls for: listing it when it is a subdirectory, looking it up when
/// it is a music file.
pub open spec fn step_for_entry(
    dir: Seq<char>,
    e: (Seq<char>, Seq<char>),
    filetypes: Seq<Seq<char>>,
    step: (bool, Seq<char>),
) -> bool {
    ||| e.0 == "directory"@ && step == (true, joined_path(dir, e.1))
    ||| e.0 == "file"@ && is_music_name(filetypes, e.1) && step == (false, joined_path(dir, e.1))
}

/// The walk takes no step for a directory but those its listing calls
/// for: the `k`-th step comes from the listing entry `i` returned, a
/// subdirectory to list or a music file to look up (see
/// [`step_for_entry`]).
pub proof fn entry_of_step(
    dir: Seq<char>,
    entries: Seq<(Seq<char>, Seq<char>)>,
    filetypes: Seq<Seq<char>>,
    k: int,
) -> (i: int)
    requires
        0 <= k < wanted_steps(dir, entries, filetypes).len(),
    ensures
        0 <= i < entries.len(),
        step_for_entry(dir, entries[i], filetypes, wanted_steps(dir, entries, filetypes)[k]),
    decreases entries.len(),
{
    let rest = entries.drop_first();
    let w = wanted_steps(dir, entries, filetypes);
    let wr = wanted_steps(dir, rest, filetypes);
    let e = entries[0];
    let head = if e.0 == "directory"@ {
        seq![(true, joined_path(dir, e.1))]
    } else if e.0 == "file"@ && is_music_name(filetypes, e.1) {
        seq![(false, joined_path(dir, e.1))]
    } else {
        Seq::<(bool, Seq<char>)>::empty()
    };
    assert(w =~= head + wr);
    if k < head.len() {
        assert(w[k] == head[0]);
        0
    } else {
        assert(w[k] == wr[k - head.len()]);
        let j = entry_of_step(dir, rest, filetypes, k - head.len());
        assert(entries[j + 1] == rest[j]);
        j + 1
    }
}

/// A directory's listing makes the walk list every subdirectory and look up
/// every music file it holds, at any depth, each by its path inside the
/// directory (that it takes no other step is [`entry_of_step`]).
pub proof fn every_listed_entry_is_walked(
    dir: Seq<char>,
    entries: Seq<(Seq<char>, Seq<char>)>,
    filetypes: Seq<Seq<char>>,
)
    ensures
        forall|i: int|
            0 <= i < entries.len() && #[trigger] entries[i].0 == "directory"@ ==> wanted_steps(
                dir,
                entries,
                filetypes,
            ).contains((true, joined_path(dir, entries[i].1))),
        forall|i: int|
            0 <= i < entries.len() && #[trigger] entries[i].0 == "file"@ && is_music_name(
                filetypes,
                entries[i].1,
            ) ==> wanted_steps(dir, entries, filetypes).contains(
                (false, joined_path(dir, entries[i].1)),
            ),
    decreases entries.len(),
{
    reveal_strlit("directory");
    reveal_strlit("file");
    assert("file"@.len() != "directory"@.len());
    if entries.len() > 0 {
        let rest = entries.drop_first();
        every_listed_entry_is_walked(dir, rest, filetypes);
        let w = wanted_steps(dir, entries, filetypes);
        let wr = wanted_steps(dir, rest, filetypes);
        let e = entries[0];
        let head = if e.0 == "directory"@ {
            seq![(true, joined_path(dir, e.1))]
        } else if e.0 == "file"@ && is_music_name(filetypes, e.1) {
            seq![(false, joined_path(dir, e.1))]
        } else {
            Seq::<(bool, Seq<char>)>::empty()
        };
        assert(w =~= head + wr);
        assert forall|i: int| 0 < i < entries.len() implies entries[i] == rest[i - 1] by {}
        assert forall|i: int|
            0 <= i < entries.len() && #[trigger] entries[i].0 == "directory"@ implies w.contains(
            (true, joined_path(dir, entries[i].1)),
        ) by {
            if i == 0 {
                assert(w[0] == (true, joined_path(dir, entries[i].1)));
            } else {
                assert(rest[i - 1].0 == "directory"@);
                let k = choose|k: int|
                    0 <= k < wr.len() && wr[k] == (true, joined_path(dir, rest[i - 1].1));
                assert(w[head.len() + k] == wr[k]);
            }
        }
        assert forall|i: int|
            0 <= i < entries.len() && #[trigger] entries[i].0 == "file"@ && is_music_name(
                filetypes,
                entries[i].1,
            ) implies w.contains((false, joined_path(dir, entries[i].1))) by {
            if i == 0 {
                assert(e.0 != "directory"@);
                assert(w[0] == (false, joined_path(dir, entries[i].1)));
            } else {
                assert(rest[i - 1].0 == "file"@);
                let k = choose|k: int|
                    0 <= k < wr.len() && wr[k] == (false, joined_path(dir, rest[i - 1].1));
                assert(w[head.len() + k] == wr[k]);
            }
        }
    } else {
        assert(wanted_steps(dir, entries, filetypes).len() == 0);
    }
}

/// The search finds exactly the songs of the library in which the query,
/// lower-cased, occurs in the lower-cased title, artist or album label: a
/// song with such a field is among the results, and every result has one.
pub proof fn search_finds_every_matching_song(library: Seq<SongView>, query: Seq<char>)
    ensures
        forall|i: int|
            0 <= i < library.len() && (is_substring(lowered(query), lowered(library[i].title->0))
                || is_substring(lowered(query), lowered(library[i].artist->0)) || is_substring(
                lowered(query),
                lowered(album_label_of(album_of(library[i])->0)),
            )) ==> #[trigger] search_result(library, query).contains(library[i]),
        forall|k: int|
            0 <= k < search_result(library, query).len() ==> ({
                let s = #[trigger] search_result(library, query)[k];
                ||| is_substring(lowered(query), lowered(s.title->0))
                ||| is_substring(lowered(query), lowered(s.artist->0))
                ||| is_substring(lowered(query), lowered(album_label_of(album_of(s)->0)))
            }),
{
    broadcast use vstd::seq_lib::group_filter_ensures;

    let pred = |s: SongView| song_matches(s, query);
    assert forall|i: int|
        0 <= i < library.len() && (is_substring(lowered(query), lowered(library[i].title->0))
            || is_substring(lowered(query), lowered(library[i].artist->0)) || is_substring(
            lowered(query),
            lowered(album_label_of(album_of(library[i])->0)),
        )) implies #[trigger] search_result(library, query).contains(library[i]) by {
        assert(pred(library[i]));
        library.lemma_filter_contains(pred, i);
    }
    assert forall|k: int| 0 <= k < search_result(library, query).len() implies ({
        let s = #[trigger] search_result(library, query)[k];
        ||| is_substring(lowered(query), lowered(s.title->0))
        ||| is_substring(lowered(query), lowered(s.artist->0))
        ||| is_substring(lowered(query), lowered(album_label_of(album_of(s)->0)))
    }) by {
        library.lemma_filter_pred(pred, k);
    }
}

/// The path of an entry of the top directory is its name; below it, the
/// path is the directory's path, a slash and the name.
pub proof fn paths_join_with_a_slash(dir: Seq<char>, name: Seq<char>)
    ensures
        dir.len() == 0 ==> joined_path(dir, name) == name,
        dir.len() > 0 ==> joined_path(dir, name).len() == dir.len() + 1 + name.len(),
        dir.len() > 0 ==> joined_path(dir, name).subrange(0, dir.len() as int) == dir,
        dir.len() > 0 ==> joined_path(dir, name)[dir.len() as int] == '/',
        joined_path(dir, name).subrange(
            joined_path(dir, name).len() - name.len(),
            joined_path(dir, name).len() as int,
        ) == name,
{
    if dir.len() > 0 {
        let j = joined_path(dir, name);
        assert(j.subrange(0, dir.len() as int) =~= dir);
        assert(j.subrange(j.len() - name.len(), j.len() as int) =~= name);
    } else {
        assert(name.subrange(0, name.len() as int) =~= name);
    }
}

} // verus!
