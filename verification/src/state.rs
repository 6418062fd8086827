//! The state of the user interface that lasts while the program runs:
//! which screen is shown, which panels and windows are open, the library
//! and its search, the playlist being put together, and the song last
//! seen playing. Each method is what one control of the interface does.

use vstd::prelude::*;
use vstd::string::*;
use vstd::view::View as _;
use crate::player::{now_playing_message, now_playing_text};
use crate::search::{search_defined, search_result, search_songs};
use crate::song::{Song, SongView, copy_songs, songs_view};

verus! {

/// The screen shown in the middle of the window.
#[derive(Clone, Copy, PartialEq, Eq, Structural, Debug)]
pub enum View {
    Queue,
    Library,
    Playlist,
    AddToPlaylist,
}

/// The interface state that is reset each time the program starts.
pub struct MyTmpData {
    settings_open: bool,
    sidebar_open: bool,
    first_run: bool,
    view: View,
    songlist_vec: Vec<Song>,
    songs: Vec<Song>,
    prev_song: Vec<Song>,
    search: String,
    search_bar: bool,
    search_bar_want_focus: bool,
    selected_playlist: Vec<String>,
    confirm_open: bool,
    new_playlist_name: String,
    new_playlist_open: bool,
    add_playlist_songs: Vec<Song>,
    song_pos: u32,
}

/// The mathematical value of a [`MyTmpData`].
#[verifier::ext_equal]
pub struct TmpDataView {
    /// The settings window is open.
    pub settings_open: bool,
    /// The playlist sidebar is open.
    pub sidebar_open: bool,
    /// No frame has been drawn yet.
    pub first_run: bool,
    pub view: View,
    /// Every song of the music library.
    pub songlist: Seq<SongView>,
    /// The songs the library screen lists.
    pub songs: Seq<SongView>,
    /// The song seen playing last, once one has been seen.
    pub prev_song: Seq<SongView>,
    /// The text in the search field.
    pub search: Seq<char>,
    /// The search field is shown.
    pub search_bar: bool,
    /// The search field should take the keyboard focus.
    pub search_bar_want_focus: bool,
    /// The name of the saved playlist on screen, once one was picked.
    pub selected_playlist: Seq<Seq<char>>,
    /// A yes/no confirmation window is open.
    pub confirm_open: bool,
    /// The name typed for a new playlist.
    pub new_playlist_name: Seq<char>,
    /// The window that names a new playlist is open.
    pub new_playlist_open: bool,
    /// The songs picked for the new playlist, in the order picked.
    pub add_playlist_songs: Seq<SongView>,
    /// The queue position of the current song.
    pub song_pos: u32,
}

/// No song occurs twice.
pub open spec fn no_duplicate_songs(s: Seq<SongView>) -> bool {
    forall|i: int, j: int| 0 <= i < j < s.len() ==> s[i] != s[j]
}

/// What holds of every interface state: at most one song is remembered as
/// playing, at most one saved playlist is selected and exactly one while a
/// saved playlist is on screen, and no song is picked twice for a new
/// playlist.
pub open spec fn tmp_data_wf(v: TmpDataView) -> bool {
    &&& v.prev_song.len() <= 1
    &&& v.selected_playlist.len() <= 1
    &&& (v.view == View::Playlist ==> v.selected_playlist.len() == 1)
    &&& no_duplicate_songs(v.add_playlist_songs)
}

/// The starting state: every window and panel closed, the queue on screen,
/// no song known, an empty search field that takes the focus once shown.
pub open spec fn initial_tmp_data() -> TmpDataView {
    TmpDataView {
        settings_open: false,
        sidebar_open: false,
        first_run: true,
        view: View::Queue,
        songlist: seq![],
        songs: seq![],
        prev_song: seq![],
        search: seq![],
        search_bar: false,
        search_bar_want_focus: true,
        selected_playlist: seq![],
        confirm_open: false,
        new_playlist_name: seq![],
        new_playlist_open: false,
        add_playlist_songs: seq![],
        song_pos: 0,
    }
}

/// The state after the sidebar button.
pub open spec fn sidebar_toggled(v: TmpDataView) -> TmpDataView {
    TmpDataView { sidebar_open: !v.sidebar_open, ..v }
}

/// The state after `song` is picked for the new playlist.
pub open spec fn song_picked(v: TmpDataView, song: SongView) -> TmpDataView {
    if v.add_playlist_songs.contains(song) {
        v
    } else {
        TmpDataView { add_playlist_songs: v.add_playlist_songs.push(song), ..v }
    }
}

/// Whether the footer reports a new song when it sees `current` playing.
pub open spec fn song_differs(v: TmpDataView, current: SongView) -> bool {
    v.prev_song.len() == 1 && v.prev_song[0] != current
}

/// The state after the footer sees `current` playing.
pub open spec fn song_observed(v: TmpDataView, current: SongView) -> TmpDataView {
    TmpDataView { prev_song: seq![current], ..v }
}

/// The state after the confirmation window's buttons.
pub open spec fn confirm_answered(v: TmpDataView, yes: bool, no: bool) -> TmpDataView {
    if yes || no {
        TmpDataView { confirm_open: false, ..v }
    } else {
        v
    }
}

/// One control of the interface with what it is handed: each variant is
/// the [`MyTmpData`] method of the same name.
pub enum Control {
    ToggleSidebar,
    OpenSettings,
    CloseSettings,
    FinishFirstRun,
    ShowQueue,
    ShowLibrary,
    ClearLibrary,
    AddLibrarySong(SongView),
    OpenNewPlaylist,
    SetNewPlaylistName(Seq<char>),
    /// Whether yes and whether no was clicked.
    NewPlaylistWindow(bool, bool),
    SelectPlaylist(Seq<char>),
    RequestConfirm,
    /// Whether yes and whether no was clicked.
    ConfirmWindow(bool, bool),
    PlaylistDeleted,
    SetSearch(Seq<char>),
    OpenSearch,
    CloseSearch,
    SearchFocusLost,
    ShowAllSongs,
    RunSearch,
    PickForNewPlaylist(SongView),
    ObserveCurrentSong(SongView),
    /// The queue position of the song that started.
    SongChange(u32),
}

/// The state after the control `c` in state `v`.
pub open spec fn after_control(v: TmpDataView, c: Control) -> TmpDataView {
    match c {
        Control::ToggleSidebar => sidebar_toggled(v),
        Control::OpenSettings => TmpDataView { settings_open: true, ..v },
        Control::CloseSettings => TmpDataView { settings_open: false, ..v },
        Control::FinishFirstRun => TmpDataView { first_run: false, ..v },
        Control::ShowQueue => TmpDataView { view: View::Queue, sidebar_open: false, ..v },
        Control::ShowLibrary => TmpDataView { view: View::Library, sidebar_open: false, ..v },
        Control::ClearLibrary => TmpDataView { songlist: seq![], ..v },
        Control::AddLibrarySong(song) => TmpDataView { songlist: v.songlist.push(song), ..v },
        Control::OpenNewPlaylist => TmpDataView { new_playlist_open: true, ..v },
        Control::SetNewPlaylistName(name) => TmpDataView { new_playlist_name: name, ..v },
        Control::NewPlaylistWindow(yes, no) => if yes {
            TmpDataView {
                sidebar_open: false,
                new_playlist_open: false,
                view: View::AddToPlaylist,
                ..v
            }
        } else if no {
            TmpDataView { new_playlist_open: false, ..v }
        } else {
            v
        },
        Control::SelectPlaylist(name) => TmpDataView {
            selected_playlist: seq![name],
            view: View::Playlist,
            sidebar_open: false,
            ..v
        },
        Control::RequestConfirm => TmpDataView { confirm_open: true, ..v },
        Control::ConfirmWindow(yes, no) => confirm_answered(v, yes, no),
        Control::PlaylistDeleted => TmpDataView { view: View::Queue, ..v },
        Control::SetSearch(text) => TmpDataView { search: text, ..v },
        Control::OpenSearch => TmpDataView { search_bar: true, search_bar_want_focus: true, ..v },
        Control::CloseSearch => TmpDataView { search: seq![], search_bar: false, ..v },
        Control::SearchFocusLost => TmpDataView { search_bar_want_focus: false, ..v },
        Control::ShowAllSongs => TmpDataView { songs: v.songlist, ..v },
        Control::RunSearch => TmpDataView { songs: search_result(v.songlist, v.search), ..v },
        Control::PickForNewPlaylist(song) => song_picked(v, song),
        Control::ObserveCurrentSong(current) => song_observed(v, current),
        Control::SongChange(pos) => TmpDataView { song_pos: pos, ..v },
    }
}

/// The state after the controls `cs`, one after another, from state `v`.
pub open spec fn run_controls(v: TmpDataView, cs: Seq<Control>) -> TmpDataView
    decreases cs.len(),
{
    if cs.len() == 0 {
        v
    } else {
        after_control(run_controls(v, cs.drop_last()), cs.last())
    }
}

/// The controls of one reading of the library that finds the songs
/// `found`, in the order found: the library is forgotten, once before the
/// daemon rescans its music directory and once after, and then each song
/// found is added.
pub open spec fn library_read(found: Seq<SongView>) -> Seq<Control>
    decreases found.len(),
{
    if found.len() == 0 {
        seq![Control::ClearLibrary, Control::ClearLibrary]
    } else {
        library_read(found.drop_last()).push(Control::AddLibrarySong(found.last()))
    }
}

impl vstd::view::View for MyTmpData {
    type V = TmpDataView;

    closed spec fn view(&self) -> TmpDataView {
        TmpDataView {
            settings_open: self.settings_open,
            sidebar_open: self.sidebar_open,
            first_run: self.first_run,
            view: self.view,
            songlist: songs_view(self.songlist_vec@),
            songs: songs_view(self.songs@),
            prev_song: songs_view(self.prev_song@),
            search: self.search@,
            search_bar: self.search_bar,
            search_bar_want_focus: self.search_bar_want_focus,
            selected_playlist: self.selected_playlist@.map_values(|s: String| s@),
            confirm_open: self.confirm_open,
            new_playlist_name: self.new_playlist_name@,
            new_playlist_open: self.new_playlist_open,
            add_playlist_songs: songs_view(self.add_playlist_songs@),
            song_pos: self.song_pos,
        }
    }
}

impl Default for MyTmpData {
    fn default() -> (r: MyTmpData)
        ensures
            r@ == initial_tmp_data(),
            tmp_data_wf(r@),
    {
        let r = MyTmpData {
            settings_open: false,
            sidebar_open: false,
            first_run: true,
            view: View::Queue,
            songlist_vec: Vec::new(),
            songs: Vec::new(),
            prev_song: Vec::new(),
            search: String::new(),
            search_bar: false,
            search_bar_want_focus: true,
            selected_playlist: Vec::new(),
            confirm_open: false,
            new_playlist_name: String::new(),
            new_playlist_open: false,
            add_playlist_songs: Vec::new(),
            song_pos: 0,
        };
        assert(r@ =~= initial_tmp_data());
        r
    }
}

impl MyTmpData {
    /// The button at the top left: opens the sidebar when it is closed and
    /// closes it when it is open.
    pub fn toggle_sidebar(&mut self)
        requires
            tmp_data_wf(old(self)@),
        ensures
            tmp_data_wf(final(self)@),
            final(self)@ == after_control(old(self)@, Control::ToggleSidebar),
    {
        self.sidebar_open = !self.sidebar_open;
    }

    /// The settings button at the top right: opens the settings window.
    pub fn open_settings(&mut self)
        requires
            tmp_data_wf(old(self)@),
        ensures
            tmp_data_wf(final(self)@),
            final(self)@ == after_control(old(self)@, Control::OpenSettings),
    {
        self.settings_open = true;
    }

    /// The close button of the settings window.
    pub fn close_settings(&mut self)
        requires
            tmp_data_wf(old(self)@),
        ensures
            tmp_data_wf(final(self)@),
            final(self)@ == after_control(old(self)@, Control::CloseSettings),
    {
        self.settings_open = false;
    }

    /// Marks the first frame as drawn.
    pub fn finish_first_run(&mut self)
        requires
            tmp_data_wf(old(self)@),
        ensures
            tmp_data_wf(final(self)@),
            final(self)@ == after_control(old(self)@, Control::FinishFirstRun),
    {
        self.first_run = false;
    }

    /// The queue button of the sidebar: shows the queue and closes the
    /// sidebar.
    pub fn show_queue(&mut self)
        requires
            tmp_data_wf(old(self)@),
        ensures
            tmp_data_wf(final(self)@),
            final(self)@ == after_control(old(self)@, Control::ShowQueue),
    {
        self.view = View::Queue;
        self.sidebar_open = false;
    }

    /// The library button of the sidebar, once the library has been read:
    /// shows the library and closes the sidebar.
    pub fn show_library(&mut self)
        requires
            tmp_data_wf(old(self)@),
        ensures
            tmp_data_wf(final(self)@),
            final(self)@ == after_control(old(self)@, Control::ShowLibrary),
    {
        self.view = View::Library;
        self.sidebar_open = false;
    }

    /// Forgets the library, before it is read again.
    pub fn clear_library(&mut self)
        requires
            tmp_data_wf(old(self)@),
        ensures
            tmp_data_wf(final(self)@),
            final(self)@ == after_control(old(self)@, Control::ClearLibrary),
    {
        self.songlist_vec = Vec::new();
        assert(self@ =~= (TmpDataView { songlist: seq![], ..old(self)@ }));
    }

    /// Adds a song found while reading the library, after those found
    /// before it.
    pub fn add_library_song(&mut self, song: Song)
        requires
            tmp_data_wf(old(self)@),
        ensures
            tmp_data_wf(final(self)@),
            final(self)@ == after_control(old(self)@, Control::AddLibrarySong(song@)),
    {
        self.songlist_vec.push(song);
        assert(self@ =~= (TmpDataView { songlist: old(self)@.songlist.push(song@), ..old(self)@ }));
    }

    /// The new playlist button of the sidebar: opens the window that names
    /// the new playlist.
    pub fn open_new_playlist(&mut self)
        requires
            tmp_data_wf(old(self)@),
        ensures
            tmp_data_wf(final(self)@),
            final(self)@ == after_control(old(self)@, Control::OpenNewPlaylist),
    {
        self.new_playlist_open = true;
    }

    /// The name field of the new playlist window.
    pub fn set_new_playlist_name(&mut self, name: String)
        requires
            tmp_data_wf(old(self)@),
        ensures
            tmp_data_wf(final(self)@),
            final(self)@ == after_control(old(self)@, Control::SetNewPlaylistName(name@)),
    {
        self.new_playlist_name = name;
    }

    /// The yes and no buttons of the new playlist window, with whether each
    /// was clicked. Yes closes the sidebar and the window and shows the
    /// screen that picks the playlist's songs; no closes the window.
    pub fn new_playlist_window(&mut self, yes: bool, no: bool)
        requires
            tmp_data_wf(old(self)@),
        ensures
            tmp_data_wf(final(self)@),
            final(self)@ == after_control(old(self)@, Control::NewPlaylistWindow(yes, no)),
    {
        if yes {
            self.sidebar_open = false;
            self.new_playlist_open = false;
            self.view = View::AddToPlaylist;
        }
        if no {
            self.new_playlist_open = false;
        }
    }

    /// A saved playlist's button in the sidebar: selects that playlist,
    /// shows it and closes the sidebar.
    pub fn select_playlist(&mut self, name: String)
        requires
            tmp_data_wf(old(self)@),
        ensures
            tmp_data_wf(final(self)@),
            final(self)@ == after_control(old(self)@, Control::SelectPlaylist(name@)),
    {
        let ghost n = name@;
        let mut sel: Vec<String> = Vec::new();
        sel.push(name);
        self.selected_playlist = sel;
        self.view = View::Playlist;
        self.sidebar_open = false;
        assert(self@ =~= (TmpDataView {
            selected_playlist: seq![n],
            view: View::Playlist,
            sidebar_open: false,
            ..old(self)@
        }));
    }

    /// A button that needs confirming (clear or delete a playlist): opens
    /// the confirmation window.
    pub fn request_confirm(&mut self)
        requires
            tmp_data_wf(old(self)@),
        ensures
            tmp_data_wf(final(self)@),
            final(self)@ == after_control(old(self)@, Control::RequestConfirm),
    {
        self.confirm_open = true;
    }

    /// The yes and no buttons of the confirmation window, with whether each
    /// was clicked: either one closes the window, and the answer is yes
    /// exactly when yes was clicked.
    pub fn confirm_window(&mut self, yes: bool, no: bool) -> (r: bool)
        requires
            tmp_data_wf(old(self)@),
        ensures
            tmp_data_wf(final(self)@),
            r == yes,
            final(self)@ == after_control(old(self)@, Control::ConfirmWindow(yes, no)),
    {
        let mut result = false;
        if yes {
            self.confirm_open = false;
            result = true;
        }
        if no {
            self.confirm_open = false;
        }
        result
    }

    /// A saved playlist was deleted from the sidebar: the queue is shown.
    pub fn playlist_deleted(&mut self)
        requires
            tmp_data_wf(old(self)@),
        ensures
            tmp_data_wf(final(self)@),
            final(self)@ == after_control(old(self)@, Control::PlaylistDeleted),
    {
        self.view = View::Queue;
    }

    /// The search field's text.
    pub fn set_search(&mut self, text: String)
        requires
            tmp_data_wf(old(self)@),
        ensures
            tmp_data_wf(final(self)@),
            final(self)@ == after_control(old(self)@, Control::SetSearch(text@)),
    {
        self.search = text;
    }

    /// The search button: shows the search field, which takes the focus.
    pub fn open_search(&mut self)
        requires
            tmp_data_wf(old(self)@),
        ensures
            tmp_data_wf(final(self)@),
            final(self)@ == after_control(old(self)@, Control::OpenSearch),
    {
        self.search_bar = true;
        self.search_bar_want_focus = true;
    }

    /// The button that closes the search field: clears the query and hides
    /// the field.
    pub fn close_search(&mut self)
        requires
            tmp_data_wf(old(self)@),
        ensures
            tmp_data_wf(final(self)@),
            final(self)@ == after_control(old(self)@, Control::CloseSearch),
    {
        self.search = String::new();
        self.search_bar = false;
    }

    /// A click outside the search field: it stops asking for the focus.
    pub fn search_focus_lost(&mut self)
        requires
            tmp_data_wf(old(self)@),
        ensures
            tmp_data_wf(final(self)@),
            final(self)@ == after_control(old(self)@, Control::SearchFocusLost),
    {
        self.search_bar_want_focus = false;
    }

    /// While no search field is shown, the library screen lists every song.
    pub fn show_all_songs(&mut self)
        requires
            tmp_data_wf(old(self)@),
        ensures
            tmp_data_wf(final(self)@),
            final(self)@ == after_control(old(self)@, Control::ShowAllSongs),
    {
        self.songs = copy_songs(&self.songlist_vec);
        assert(self@ =~= (TmpDataView { songs: old(self)@.songlist, ..old(self)@ }));
    }

    /// Enter in the search field: the library screen lists the songs that
    /// match the query (see [`search_result`]). Every song must carry the
    /// fields the search reads.
    pub fn run_search(&mut self)
        requires
            tmp_data_wf(old(self)@),
            forall|i: int|
                0 <= i < old(self)@.songlist.len() ==> search_defined(
                    #[trigger] old(self)@.songlist[i],
                    old(self)@.search,
                ),
        ensures
            tmp_data_wf(final(self)@),
            final(self)@ == after_control(old(self)@, Control::RunSearch),
    {
        proof {
            assert forall|i: int| 0 <= i < self.songlist_vec@.len() implies search_defined(
                #[trigger] self.songlist_vec@[i]@,
                self.search@,
            ) by {
                assert(old(self)@.songlist[i] == self.songlist_vec@[i]@);
            }
        }
        let found = search_songs(&self.songlist_vec, self.search.as_str());
        self.songs = found;
        assert(self@ =~= (TmpDataView {
            songs: search_result(old(self)@.songlist, old(self)@.search),
            ..old(self)@
        }));
    }

    /// The pick button of a song on the screen that builds a new playlist:
    /// the song is added after those picked before, unless it was picked
    /// already.
    pub fn pick_for_new_playlist(&mut self, song: &Song)
        requires
            tmp_data_wf(old(self)@),
        ensures
            tmp_data_wf(final(self)@),
            final(self)@ == after_control(old(self)@, Control::PickForNewPlaylist(song@)),
    {
        let ghost picked = old(self)@.add_playlist_songs;
        let mut i: usize = 0;
        while i < self.add_playlist_songs.len()
            invariant
                i <= self.add_playlist_songs@.len(),
                self@ == old(self)@,
                tmp_data_wf(old(self)@),
                picked == songs_view(self.add_playlist_songs@),
                forall|k: int| 0 <= k < i ==> picked[k] != song@,
            decreases self.add_playlist_songs@.len() - i,
        {
            if self.add_playlist_songs[i].same_song(song) {
                assert(picked[i as int] == song@);
                return;
            }
            i = i + 1;
        }
        assert(!picked.contains(song@));
        self.add_playlist_songs.push(song.clone());
        assert(self@ =~= (TmpDataView { add_playlist_songs: picked.push(song@), ..old(self)@ }));
    }

    /// The files of the songs picked for the new playlist, in the order
    /// picked: what the save button adds to the playlist.
    pub fn new_playlist_files(&self) -> (r: Vec<String>)
        ensures
            r@.map_values(|s: String| s@) == self@.add_playlist_songs.map_values(|s: SongView| s.file),
    {
        let mut r: Vec<String> = Vec::new();
        let mut i: usize = 0;
        while i < self.add_playlist_songs.len()
            invariant
                i <= self.add_playlist_songs@.len(),
                r@.len() == i,
                forall|k: int| 0 <= k < i ==> #[trigger] r@[k]@ == self.add_playlist_songs@[k].file@,
            decreases self.add_playlist_songs@.len() - i,
        {
            r.push(self.add_playlist_songs[i].file.clone());
            i = i + 1;
        }
        assert(r@.map_values(|s: String| s@) =~= self@.add_playlist_songs.map_values(
            |s: SongView| s.file,
        ));
        r
    }

    /// The footer, each frame while a song plays, with the current song:
    /// the first song seen is remembered; the result tells whether the
    /// current song differs from the one remembered, which it then replaces.
    pub fn observe_current_song(&mut self, current: &Song) -> (changed: bool)
        requires
            tmp_data_wf(old(self)@),
        ensures
            tmp_data_wf(final(self)@),
            changed == song_differs(old(self)@, current@),
            final(self)@ == after_control(old(self)@, Control::ObserveCurrentSong(current@)),
    {
        let mut changed = false;
        if self.prev_song.len() == 0 {
            self.prev_song.push(current.clone());
        } else if !self.prev_song[0].same_song(current) {
            changed = true;
            let mut fresh: Vec<Song> = Vec::new();
            fresh.push(current.clone());
            self.prev_song = fresh;
        }
        assert(self@ =~= (TmpDataView { prev_song: seq![current@], ..old(self)@ }));
        changed
    }

    /// A new song started: its queue position is recorded, and, when
    /// notifications are on, the result is the text that announces it.
    pub fn song_change(&mut self, current: &Song, notifications: bool) -> (notice: Option<String>)
        requires
            tmp_data_wf(old(self)@),
            current@.place is Some,
            notifications ==> current@.title is Some,
        ensures
            tmp_data_wf(final(self)@),
            final(self)@ == after_control(old(self)@, Control::SongChange(current@.place->0.pos)),
            match notice {
                Some(text) => notifications && text@ == now_playing_text(current@.title->0),
                None => !notifications,
            },
    {
        match current.place {
            Some(p) => {
                self.song_pos = p.pos;
            },
            None => {},
        }
        if notifications {
            match &current.title {
                Some(t) => Some(now_playing_message(t.as_str())),
                None => None,
            }
        } else {
            None
        }
    }
}


impl MyTmpData {
    /// Whether the settings window is open.
    pub fn settings_open(&self) -> (r: bool)
        ensures
            r == self@.settings_open,
    {
        self.settings_open
    }

    /// Whether the sidebar is open.
    pub fn sidebar_open(&self) -> (r: bool)
        ensures
            r == self@.sidebar_open,
    {
        self.sidebar_open
    }

    /// Whether no frame has been drawn yet.
    pub fn first_run(&self) -> (r: bool)
        ensures
            r == self@.first_run,
    {
        self.first_run
    }

    /// The screen shown.
    pub fn shown_view(&self) -> (r: View)
        ensures
            r == self@.view,
    {
        self.view
    }

    /// Every song of the library.
    pub fn songlist(&self) -> (r: &Vec<Song>)
        ensures
            songs_view(r@) == self@.songlist,
    {
        &self.songlist_vec
    }

    /// The songs the library screen lists.
    pub fn songs(&self) -> (r: &Vec<Song>)
        ensures
            songs_view(r@) == self@.songs,
    {
        &self.songs
    }

    /// The text in the search field.
    pub fn search(&self) -> (r: &String)
        ensures
            r@ == self@.search,
    {
        &self.search
    }

    /// Whether the search field is shown.
    pub fn search_bar(&self) -> (r: bool)
        ensures
            r == self@.search_bar,
    {
        self.search_bar
    }

    /// Whether the search field should take the focus.
    pub fn search_bar_want_focus(&self) -> (r: bool)
        ensures
            r == self@.search_bar_want_focus,
    {
        self.search_bar_want_focus
    }

    /// Whether a saved playlist has been selected.
    pub fn has_selected_playlist(&self) -> (r: bool)
        ensures
            r == (self@.selected_playlist.len() >= 1),
    {
        self.selected_playlist.len() >= 1
    }

    /// The name of the saved playlist selected last, which is the one on
    /// screen while a saved playlist is shown.
    pub fn current_playlist(&self) -> (r: &String)
        requires
            self@.selected_playlist.len() >= 1,
        ensures
            r@ == self@.selected_playlist[0],
    {
        &self.selected_playlist[0]
    }

    /// Whether a confirmation window is open.
    pub fn confirm_open(&self) -> (r: bool)
        ensures
            r == self@.confirm_open,
    {
        self.confirm_open
    }

    /// The name typed for a new playlist.
    pub fn new_playlist_name(&self) -> (r: &String)
        ensures
            r@ == self@.new_playlist_name,
    {
        &self.new_playlist_name
    }

    /// Whether the window that names a new playlist is open.
    pub fn new_playlist_open(&self) -> (r: bool)
        ensures
            r == self@.new_playlist_open,
    {
        self.new_playlist_open
    }

    /// The songs picked for the new playlist.
    pub fn add_playlist_songs(&self) -> (r: &Vec<Song>)
        ensures
            songs_view(r@) == self@.add_playlist_songs,
    {
        &self.add_playlist_songs
    }

    /// The queue position of the current song.
    pub fn song_pos(&self) -> (r: u32)
        ensures
            r == self@.song_pos,
    {
        self.song_pos
    }
}

} // verus!
