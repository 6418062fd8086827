//! The walk through the music directory that collects the library: a
//! depth-first traversal in listing order, driven one request at a time.
//! The caller performs each request against the daemon and hands the
//! listings back.

use vstd::prelude::*;
use vstd::string::*;
use crate::config::{TangelloConfig, is_music_name};
use crate::song::tags_view;
use crate::text::{joined_path, join_path};

verus! {

/// What the walk asks the caller to do next.
pub enum ScanRequest {
    /// List the entries of this directory and pass them to
    /// [`LibraryScan::enter_dir`].
    ListFiles(String),
    /// Look up the songs of this music file.
    LsInfo(String),
    /// The walk is over.
    Done,
}

/// A pending step of the walk: a directory to list or a music file to
/// look up.
pub struct ScanItem {
    pub is_dir: bool,
    pub path: String,
}

/// The state of a walk: the steps still to take, the next one last.
pub struct LibraryScan {
    pending: Vec<ScanItem>,
}

/// The steps that a directory listing calls for, in listing order: every
/// subdirectory, to be listed in turn, and every file whose name marks it
/// as music, to be looked up. Other entries are skipped. Each entry is a
/// pair of its kind and its name; paths are joined to `dir`.
pub open spec fn wanted_steps(
    dir: Seq<char>,
    entries: Seq<(Seq<char>, Seq<char>)>,
    filetypes: Seq<Seq<char>>,
) -> Seq<(bool, Seq<char>)>
    decreases entries.len(),
{
    if entries.len() == 0 {
        seq![]
    } else {
        let e = entries[0];
        let rest = wanted_steps(dir, entries.drop_first(), filetypes);
        if e.0 == "directory"@ {
            seq![(true, joined_path(dir, e.1))] + rest
        } else if e.0 == "file"@ && is_music_name(filetypes, e.1) {
            seq![(false, joined_path(dir, e.1))] + rest
        } else {
            rest
        }
    }
}

/// The music files that a depth-first walk looks up, in order, when it
/// takes the steps `steps` one after another and the listing of each
/// directory path `p` is `listings(p)`: each music file is looked up, each
/// subdirectory is walked in full before the next step. `depth` bounds how
/// deep the walk descends (see [`walk_fits`]).
pub open spec fn walked_files(
    listings: spec_fn(Seq<char>) -> Seq<(Seq<char>, Seq<char>)>,
    filetypes: Seq<Seq<char>>,
    steps: Seq<(bool, Seq<char>)>,
    depth: nat,
) -> Seq<Seq<char>>
    decreases depth, steps.len(),
{
    if steps.len() == 0 {
        seq![]
    } else {
        let x = steps[0];
        let rest = walked_files(listings, filetypes, steps.drop_first(), depth);
        if !x.0 {
            seq![x.1] + rest
        } else if depth == 0 {
            rest
        } else {
            walked_files(
                listings,
                filetypes,
                wanted_steps(x.1, listings(x.1), filetypes),
                (depth - 1) as nat,
            ) + rest
        }
    }
}

/// The directories reached from `steps` nest no deeper than `depth`
/// levels, so [`walked_files`] describes the whole walk.
pub open spec fn walk_fits(
    listings: spec_fn(Seq<char>) -> Seq<(Seq<char>, Seq<char>)>,
    filetypes: Seq<Seq<char>>,
    steps: Seq<(bool, Seq<char>)>,
    depth: nat,
) -> bool
    decreases depth, steps.len(),
{
    if steps.len() == 0 {
        true
    } else {
        let x = steps[0];
        &&& walk_fits(listings, filetypes, steps.drop_first(), depth)
        &&& x.0 ==> depth > 0 && walk_fits(
            listings,
            filetypes,
            wanted_steps(x.1, listings(x.1), filetypes),
            (depth - 1) as nat,
        )
    }
}

/// What `n` requests of a walk whose pending steps are `pending` give,
/// when the caller answers each directory request for path `p` by handing
/// `listings(p)` to [`LibraryScan::enter_dir`]: the files looked up, in
/// order, and the steps still pending. Each request takes the top step, as
/// [`LibraryScan::next_request`] does; a directory's listing then goes on
/// top, as [`LibraryScan::enter_dir`] puts it.
pub open spec fn driven(
    listings: spec_fn(Seq<char>) -> Seq<(Seq<char>, Seq<char>)>,
    filetypes: Seq<Seq<char>>,
    pending: Seq<(bool, Seq<char>)>,
    n: nat,
) -> (Seq<Seq<char>>, Seq<(bool, Seq<char>)>)
    decreases n,
{
    if n == 0 || pending.len() == 0 {
        (seq![], pending)
    } else {
        let top = pending.last();
        let below = pending.drop_last();
        if top.0 {
            driven(
                listings,
                filetypes,
                below + wanted_steps(top.1, listings(top.1), filetypes).reverse(),
                (n - 1) as nat,
            )
        } else {
            let r = driven(listings, filetypes, below, (n - 1) as nat);
            (seq![top.1] + r.0, r.1)
        }
    }
}

impl vstd::view::View for LibraryScan {
    type V = Seq<(bool, Seq<char>)>;

    closed spec fn view(&self) -> Seq<(bool, Seq<char>)> {
        self.pending@.map_values(|it: ScanItem| (it.is_dir, it.path@))
    }
}

impl LibraryScan {
    /// A walk that starts by listing the top of the music directory.
    pub fn new() -> (r: LibraryScan)
        ensures
            r@ == seq![(true, Seq::<char>::empty())],
    {
        let mut pending: Vec<ScanItem> = Vec::new();
        pending.push(ScanItem { is_dir: true, path: String::new() });
        let r = LibraryScan { pending };
        assert(r@ =~= seq![(true, Seq::<char>::empty())]);
        r
    }

    /// Takes the next step of the walk: the step on top of the pending
    /// ones, or `Done` when none is left.
    pub fn next_request(&mut self) -> (r: ScanRequest)
        ensures
            old(self)@.len() == 0 ==> r is Done && final(self)@ == old(self)@,
            old(self)@.len() > 0 ==> final(self)@ == old(self)@.drop_last(),
            old(self)@.len() > 0 ==> match r {
                ScanRequest::ListFiles(p) => old(self)@.last() == (true, p@),
                ScanRequest::LsInfo(p) => old(self)@.last() == (false, p@),
                ScanRequest::Done => false,
            },
    {
        match self.pending.pop() {
            None => ScanRequest::Done,
            Some(item) => {
                proof {
                    assert(self@ =~= old(self)@.drop_last());
                }
                if item.is_dir {
                    ScanRequest::ListFiles(item.path)
                } else {
                    ScanRequest::LsInfo(item.path)
                }
            },
        }
    }

    /// Hands the walk the listing of directory `dir`: the steps it calls
    /// for (see [`wanted_steps`]) are taken next, in listing order, before
    /// any step that was pending.
    pub fn enter_dir(&mut self, dir: &str, entries: &Vec<(String, String)>, config: &TangelloConfig)
        ensures
            final(self)@ == old(self)@ + wanted_steps(dir@, tags_view(entries@), config@.filetypes).reverse(),
    {
        let ghost es = tags_view(entries@);
        let ghost ft = config@.filetypes;
        let directory = String::from_str("directory");
        let file = String::from_str("file");
        let mut i: usize = entries.len();
        assert(es.subrange(i as int, es.len() as int) =~= seq![]);
        while i > 0
            invariant
                i <= entries@.len(),
                es == tags_view(entries@),
                ft == config@.filetypes,
                directory@ == "directory"@,
                file@ == "file"@,
                self@ == old(self)@ + wanted_steps(dir@, es.subrange(i as int, es.len() as int), ft).reverse(),
            decreases i,
        {
            let ghost before = self@;
            let ghost tail = es.subrange(i as int, es.len() as int);
            let ghost cur = es.subrange(i - 1, es.len() as int);
            assert(cur.drop_first() =~= tail);
            assert(cur[0] == es[i - 1]);
            assert(es[i - 1] == (entries@[i - 1].0@, entries@[i - 1].1@));
            let kind = &entries[i - 1].0;
            let name = &entries[i - 1].1;
            if kind.eq(&directory) {
                let p = join_path(dir, name.as_str());
                self.pending.push(ScanItem { is_dir: true, path: p });
                proof {
                    let w = wanted_steps(dir@, tail, ft);
                    assert(wanted_steps(dir@, cur, ft) == seq![(true, joined_path(dir@, name@))] + w);
                    assert((seq![(true, joined_path(dir@, name@))] + w).reverse() =~= w.reverse().push(
                        (true, joined_path(dir@, name@)),
                    ));
                    assert(self@ =~= before.push((true, joined_path(dir@, name@))));
                }
            } else if kind.eq(&file) && config.is_music_file(name.as_str()) {
                let p = join_path(dir, name.as_str());
                self.pending.push(ScanItem { is_dir: false, path: p });
                proof {
                    let w = wanted_steps(dir@, tail, ft);
                    assert(wanted_steps(dir@, cur, ft) == seq![(false, joined_path(dir@, name@))] + w);
                    assert((seq![(false, joined_path(dir@, name@))] + w).reverse() =~= w.reverse().push(
                        (false, joined_path(dir@, name@)),
                    ));
                    assert(self@ =~= before.push((false, joined_path(dir@, name@))));
                }
            } else {
                assert(wanted_steps(dir@, cur, ft) == wanted_steps(dir@, tail, ft));
            }
            i = i - 1;
        }
        assert(es.subrange(0, es.len() as int) =~= es);
    }
}

} // verus!
