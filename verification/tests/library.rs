use tangello::config::TangelloConfig;
use tangello::player::{
    choose_cover, last_queue_position, now_playing_message, play_button_action,
    playlist_delete_position, seek_action, Cover, PlayAction, PlayerState, SeekAction,
};
use tangello::scan::{LibraryScan, ScanRequest};
use tangello::search::{library_searchable, search_songs};
use tangello::song::{album_label, copy_songs, QueuePlace, Song};
use tangello::state::{MyTmpData, View};
use tangello::text::{chars_of, contains_chars, join_path, str_contains};

fn song(file: &str, title: &str, artist: &str, album: &str) -> Song {
    Song {
        file: file.to_string(),
        name: None,
        title: Some(title.to_string()),
        last_mod: None,
        artist: Some(artist.to_string()),
        duration_secs: Some(200),
        place: None,
        range: None,
        tags: vec![
            ("Artist".to_string(), artist.to_string()),
            ("Album".to_string(), album.to_string()),
        ],
    }
}

fn queued(file: &str, pos: u32) -> Song {
    let mut s = song(file, "T", "A", "B");
    s.place = Some(QueuePlace { id: pos + 10, pos, prio: 0 });
    s
}

fn files(v: &Vec<Song>) -> Vec<String> {
    v.iter().map(|s| s.file.clone()).collect()
}

// text

#[test]
fn contains_finds_substrings() {
    assert!(str_contains("Bohemian Rhapsody", "Rhap"));
    assert!(str_contains("abc", "abc"));
    assert!(str_contains("abc", ""));
    assert!(str_contains("", ""));
    assert!(!str_contains("abc", "abcd"));
    assert!(!str_contains("abc", "cb"));
    assert!(str_contains("zürich café", "é"));
}

#[test]
fn contains_chars_on_vectors() {
    let hay = vec!['a', 'b', 'a', 'b', 'c'];
    assert!(contains_chars(&hay, &vec!['a', 'b', 'c']));
    assert!(!contains_chars(&hay, &vec!['c', 'a']));
}

#[test]
fn chars_of_keeps_every_character() {
    assert_eq!(chars_of("a⤴b"), vec!['a', '⤴', 'b']);
    assert_eq!(chars_of(""), Vec::<char>::new());
}

#[test]
fn join_path_at_top_and_below() {
    assert_eq!(join_path("", "Artist"), "Artist");
    assert_eq!(join_path("Artist", "Album"), "Artist/Album");
    assert_eq!(join_path("Artist/Album", "01.flac"), "Artist/Album/01.flac");
}

// songs

#[test]
fn last_album_tag_wins() {
    let mut s = song("f", "t", "a", "First");
    s.tags.push(("Album".to_string(), "Second".to_string()));
    assert_eq!(s.album(), Some("Second".to_string()));
    assert_eq!(s.tag_value("Artist"), Some("a".to_string()));
    assert_eq!(s.tag_value("Genre"), None);
}

#[test]
fn album_label_adds_the_arrow() {
    assert_eq!(album_label("Abbey Road"), "Abbey Road ⤴");
    assert_eq!(album_label(""), " ⤴");
}

#[test]
fn same_song_compares_every_field() {
    let a = song("f", "t", "a", "b");
    let b = a.clone();
    assert!(a.same_song(&b));
    let mut c = a.clone();
    c.tags.push(("Genre".to_string(), "Rock".to_string()));
    assert!(!a.same_song(&c));
    let mut d = a.clone();
    d.place = Some(QueuePlace { id: 1, pos: 0, prio: 0 });
    assert!(!a.same_song(&d));
    assert_eq!(files(&copy_songs(&vec![a.clone(), c.clone()])), vec!["f", "f"]);
}

// search

#[test]
fn search_ignores_case_and_keeps_library_order() {
    let lib = vec![
        song("1", "Yesterday", "The Beatles", "Help!"),
        song("2", "Paranoid", "Black Sabbath", "Paranoid"),
        song("3", "Help!", "The Beatles", "Help!"),
        song("4", "Angie", "The Rolling Stones", "Goats Head Soup"),
    ];
    assert_eq!(files(&search_songs(&lib, "beatles")), vec!["1", "3"]);
    assert_eq!(files(&search_songs(&lib, "PARANOID")), vec!["2"]);
    assert_eq!(files(&search_songs(&lib, "help")), vec!["1", "3"]);
    assert_eq!(files(&search_songs(&lib, "soup ⤴")), vec!["4"]);
    assert_eq!(files(&search_songs(&lib, "xyz")), Vec::<String>::new());
}

#[test]
fn searchable_only_with_the_fields_read() {
    let ok = vec![song("1", "Yesterday", "The Beatles", "Help!")];
    assert!(library_searchable(&ok, "x"));
    let mut no_album = song("2", "a", "b", "c");
    no_album.tags.clear();
    assert!(!library_searchable(&vec![no_album], "a"));
    let mut no_title = song("3", "a", "b", "c");
    no_title.title = None;
    assert!(!library_searchable(&vec![no_title], "a"));
    let mut no_artist = song("4", "Angie", "b", "c");
    no_artist.artist = None;
    assert!(library_searchable(&vec![no_artist.clone()], "angie"));
    assert!(!library_searchable(&vec![no_artist], "zzz"));
}

#[test]
fn empty_search_finds_everything() {
    let lib = vec![song("1", "a", "b", "c"), song("2", "d", "e", "f")];
    assert_eq!(files(&search_songs(&lib, "")), vec!["1", "2"]);
}

// settings

#[test]
fn fresh_configuration() {
    let c = TangelloConfig::with_music_dir("/home/me/Music");
    assert!(c.dark_mode);
    assert!(c.notifications);
    assert_eq!(c.mpd_address, "127.0.0.1:6600");
    assert_eq!(c.tmp_address, "127.0.0.1:6600");
    assert_eq!(c.music_path, "/home/me/Music");
    assert_eq!(c.tmp_music_path, "/home/me/Music");
    assert_eq!(
        c.filetypes,
        vec![
            ".flac", ".mp3", ".ogg", "opus", "m4a", "aif", "aiff", "wav", "oga", "mogg", "ogv",
            "ogx", "ogm", "spx", "raw"
        ]
    );
}

#[test]
fn music_files_by_name() {
    let c = TangelloConfig::with_music_dir("m");
    assert!(c.is_music_file("01 - Song.flac"));
    assert!(c.is_music_file("song.mp3"));
    assert!(c.is_music_file("live.opus"));
    assert!(!c.is_music_file("cover.jpg"));
    assert!(!c.is_music_file("notes.txt"));
}

#[test]
fn apply_address_when_server_found_or_not() {
    let mut c = TangelloConfig::with_music_dir("m");
    c.tmp_address = "10.0.0.2:6600".to_string();
    assert!(c.apply_address(false));
    assert_eq!(c.mpd_address, "127.0.0.1:6600");
    assert!(!c.apply_address(true));
    assert_eq!(c.mpd_address, "10.0.0.2:6600");
}

#[test]
fn apply_music_path_uses_typed_folder() {
    let mut c = TangelloConfig::with_music_dir("old");
    c.tmp_music_path = "new".to_string();
    c.apply_music_path();
    assert_eq!(c.music_path, "new");
}

#[test]
fn toggles_twice_restore() {
    let mut c = TangelloConfig::with_music_dir("m");
    c.toggle_dark_mode();
    assert!(!c.dark_mode);
    c.toggle_dark_mode();
    assert!(c.dark_mode);
    c.toggle_notifications();
    assert!(!c.notifications);
    c.toggle_notifications();
    assert!(c.notifications);
}

#[test]
fn stored_settings_replace_typed_address() {
    let mut c = TangelloConfig::with_music_dir("m");
    c.tmp_address = "typed:1".to_string();
    c.dark_mode = false;
    let s = c.stored();
    assert_eq!(s.tmp_address, "127.0.0.1:6600");
    assert_eq!(s.mpd_address, "127.0.0.1:6600");
    assert!(!s.dark_mode);
    assert_eq!(s.filetypes, c.filetypes);
    let again = s.stored();
    assert_eq!(again.tmp_address, s.tmp_address);
}

// library walk

#[test]
fn walk_is_depth_first_in_listing_order() {
    let c = TangelloConfig::with_music_dir("m");
    let mut scan = LibraryScan::new();
    let mut log: Vec<String> = Vec::new();
    loop {
        match scan.next_request() {
            ScanRequest::ListFiles(p) => {
                log.push(format!("list {}", p));
                let entries: Vec<(String, String)> = match p.as_str() {
                    "" => vec![
                        ("directory".to_string(), "A".to_string()),
                        ("file".to_string(), "top.mp3".to_string()),
                        ("directory".to_string(), "B".to_string()),
                    ],
                    "A" => vec![
                        ("file".to_string(), "cover.jpg".to_string()),
                        ("file".to_string(), "one.flac".to_string()),
                        ("playlist".to_string(), "x.flac".to_string()),
                    ],
                    "B" => vec![("directory".to_string(), "C".to_string())],
                    "B/C" => vec![("file".to_string(), "two.ogg".to_string())],
                    _ => vec![],
                };
                scan.enter_dir(&p, &entries, &c);
            }
            ScanRequest::LsInfo(p) => log.push(format!("info {}", p)),
            ScanRequest::Done => break,
        }
    }
    assert_eq!(
        log,
        vec![
            "list ", "list A", "info A/one.flac", "info top.mp3", "list B", "list B/C",
            "info B/C/two.ogg"
        ]
    );
}

#[test]
fn empty_walk_is_done() {
    let mut scan = LibraryScan::new();
    assert!(matches!(scan.next_request(), ScanRequest::ListFiles(p) if p.is_empty()));
    assert!(matches!(scan.next_request(), ScanRequest::Done));
}

// player

#[test]
fn play_button_pauses_only_while_playing() {
    assert_eq!(play_button_action(PlayerState::Play), PlayAction::Pause);
    assert_eq!(play_button_action(PlayerState::Pause), PlayAction::Play);
    assert_eq!(play_button_action(PlayerState::Stop), PlayAction::Play);
}

#[test]
fn slider_rewinds_seeks_or_stays() {
    assert_eq!(seek_action(true, 10, 30, 4), SeekAction::Rewind(10));
    assert_eq!(seek_action(true, 50, 30, 4), SeekAction::Seek(4, 50));
    assert_eq!(seek_action(true, 30, 30, 4), SeekAction::Stay);
    assert_eq!(seek_action(false, 10, 30, 4), SeekAction::Stay);
    assert_eq!(seek_action(false, u64::MAX, 30, 4), SeekAction::Stay);
}

#[test]
fn now_playing_text() {
    assert_eq!(now_playing_message("Angie"), "Now playing: \"Angie\"");
    assert_eq!(now_playing_message(""), "Now playing: \"\"");
}

#[test]
fn cover_from_primary_or_first_tag() {
    let a = vec![vec![1u8, 2], vec![3u8]];
    let b = vec![vec![9u8]];
    assert!(matches!(choose_cover(Some(a.clone()), Some(b.clone())), Cover::Picture(d) if d == vec![1, 2]));
    assert!(matches!(choose_cover(None, Some(b.clone())), Cover::Picture(d) if d == vec![9]));
    assert!(matches!(choose_cover(Some(vec![]), Some(b)), Cover::Placeholder));
    assert!(matches!(choose_cover(None, Some(vec![])), Cover::Placeholder));
}

#[test]
fn last_queue_position_is_that_of_the_last_song() {
    let q = vec![queued("a", 0), queued("b", 1), queued("c", 7)];
    assert_eq!(last_queue_position(&q), 7);
}

#[test]
fn playlist_delete_position_is_always_the_maximum() {
    assert_eq!(playlist_delete_position(1), u32::MAX);
    assert_eq!(playlist_delete_position(2), u32::MAX);
    assert_eq!(playlist_delete_position(1000), u32::MAX);
}

// interface state

#[test]
fn starting_state() {
    let t = MyTmpData::default();
    assert!(!t.settings_open());
    assert!(!t.sidebar_open());
    assert!(t.first_run());
    assert_eq!(t.shown_view(), View::Queue);
    assert!(t.songlist().is_empty());
    assert!(t.songs().is_empty());
    assert_eq!(t.search(), "");
    assert!(!t.search_bar());
    assert!(t.search_bar_want_focus());
    assert!(!t.confirm_open());
    assert_eq!(t.new_playlist_name(), "");
    assert!(!t.new_playlist_open());
    assert!(t.add_playlist_songs().is_empty());
    assert_eq!(t.song_pos(), 0);
}

#[test]
fn sidebar_button_twice_restores() {
    let mut t = MyTmpData::default();
    t.toggle_sidebar();
    assert!(t.sidebar_open());
    t.toggle_sidebar();
    assert!(!t.sidebar_open());
}

#[test]
fn settings_open_and_close() {
    let mut t = MyTmpData::default();
    t.open_settings();
    assert!(t.settings_open());
    t.close_settings();
    assert!(!t.settings_open());
    t.finish_first_run();
    assert!(!t.first_run());
}

#[test]
fn sidebar_navigation() {
    let mut t = MyTmpData::default();
    t.toggle_sidebar();
    t.show_library();
    assert_eq!(t.shown_view(), View::Library);
    assert!(!t.sidebar_open());
    t.toggle_sidebar();
    t.select_playlist("Road trip".to_string());
    assert_eq!(t.shown_view(), View::Playlist);
    assert_eq!(t.current_playlist(), "Road trip");
    assert!(!t.sidebar_open());
    t.toggle_sidebar();
    t.show_queue();
    assert_eq!(t.shown_view(), View::Queue);
    assert!(!t.sidebar_open());
    t.select_playlist("Other".to_string());
    t.playlist_deleted();
    assert_eq!(t.shown_view(), View::Queue);
}

#[test]
fn new_playlist_window_buttons() {
    let mut t = MyTmpData::default();
    t.toggle_sidebar();
    t.open_new_playlist();
    assert!(t.new_playlist_open());
    t.set_new_playlist_name("Mix".to_string());
    t.new_playlist_window(false, false);
    assert!(t.new_playlist_open());
    t.new_playlist_window(false, true);
    assert!(!t.new_playlist_open());
    assert_eq!(t.shown_view(), View::Queue);
    t.open_new_playlist();
    t.new_playlist_window(true, false);
    assert!(!t.new_playlist_open());
    assert!(!t.sidebar_open());
    assert_eq!(t.shown_view(), View::AddToPlaylist);
    assert_eq!(t.new_playlist_name(), "Mix");
}

#[test]
fn confirmation_window() {
    let mut t = MyTmpData::default();
    t.request_confirm();
    assert!(t.confirm_open());
    assert!(!t.confirm_window(false, false));
    assert!(t.confirm_open());
    assert!(!t.confirm_window(false, true));
    assert!(!t.confirm_open());
    t.request_confirm();
    assert!(t.confirm_window(true, false));
    assert!(!t.confirm_open());
}

#[test]
fn library_reading_and_search_flow() {
    let mut t = MyTmpData::default();
    t.clear_library();
    t.add_library_song(song("1", "Yesterday", "The Beatles", "Help!"));
    t.add_library_song(song("2", "Paranoid", "Black Sabbath", "Paranoid"));
    assert_eq!(files(t.songlist()), vec!["1", "2"]);
    t.show_all_songs();
    assert_eq!(files(t.songs()), vec!["1", "2"]);
    t.open_search();
    assert!(t.search_bar());
    assert!(t.search_bar_want_focus());
    t.set_search("SABBATH".to_string());
    t.run_search();
    assert_eq!(files(t.songs()), vec!["2"]);
    t.search_focus_lost();
    assert!(!t.search_bar_want_focus());
    t.close_search();
    assert!(!t.search_bar());
    assert_eq!(t.search(), "");
    t.clear_library();
    assert!(t.songlist().is_empty());
}

#[test]
fn picking_twice_keeps_one_copy() {
    let mut t = MyTmpData::default();
    let a = song("a.flac", "A", "x", "y");
    let b = song("b.flac", "B", "x", "y");
    t.pick_for_new_playlist(&a);
    t.pick_for_new_playlist(&b);
    t.pick_for_new_playlist(&a);
    assert_eq!(files(t.add_playlist_songs()), vec!["a.flac", "b.flac"]);
    assert_eq!(t.new_playlist_files(), vec!["a.flac", "b.flac"]);
}

#[test]
fn current_song_changes_are_reported() {
    let mut t = MyTmpData::default();
    let a = queued("a", 0);
    let b = queued("b", 1);
    assert!(!t.observe_current_song(&a));
    assert!(!t.observe_current_song(&a));
    assert!(t.observe_current_song(&b));
    assert!(!t.observe_current_song(&b));
    assert!(t.observe_current_song(&a));
}

#[test]
fn song_change_records_position_and_announces() {
    let mut t = MyTmpData::default();
    let mut s = queued("a", 5);
    s.title = Some("Angie".to_string());
    assert_eq!(t.song_change(&s, true), Some("Now playing: \"Angie\"".to_string()));
    assert_eq!(t.song_pos(), 5);
    let s2 = queued("b", 9);
    assert_eq!(t.song_change(&s2, false), None);
    assert_eq!(t.song_pos(), 9);
}

#[test]
fn applied_address_is_what_gets_stored() {
    let mut c = TangelloConfig::with_music_dir("m");
    c.tmp_address = "192.168.1.5:6600".to_string();
    c.apply_address(true);
    let s = c.stored();
    assert_eq!(s.mpd_address, "192.168.1.5:6600");
    assert_eq!(s.tmp_address, "192.168.1.5:6600");
}

#[test]
fn upper_case_query_finds_the_same() {
    let lib = vec![
        song("1", "Yesterday", "The Beatles", "Help!"),
        song("2", "Paranoid", "Black Sabbath", "Paranoid"),
        song("3", "Angie", "The Rolling Stones", "Goats Head Soup"),
    ];
    for q in ["the", "paranoid", "soup ⤴", "yes", "zz"] {
        let upper = q.to_ascii_uppercase();
        assert_eq!(files(&search_songs(&lib, q)), files(&search_songs(&lib, &upper)));
    }
}

#[test]
fn longer_query_finds_a_subsequence() {
    let lib = vec![
        song("1", "Help!", "The Beatles", "Help!"),
        song("2", "Helpless", "Neil Young", "Deja Vu"),
        song("3", "Help Me", "Joni Mitchell", "Court and Spark"),
        song("4", "Angie", "The Rolling Stones", "Goats Head Soup"),
    ];
    let short = files(&search_songs(&lib, "hel"));
    let long = files(&search_songs(&lib, "help m"));
    assert_eq!(short, vec!["1", "2", "3"]);
    assert_eq!(long, vec!["3"]);
    assert!(long.iter().all(|f| short.contains(f)));
}

#[test]
fn selected_playlist_stays_after_leaving_it() {
    let mut t = MyTmpData::default();
    assert!(!t.has_selected_playlist());
    t.select_playlist("Road trip".to_string());
    assert!(t.has_selected_playlist());
    t.show_queue();
    assert!(t.has_selected_playlist());
    assert_eq!(t.current_playlist(), "Road trip");
}

#[test]
fn first_run_never_comes_back() {
    let mut t = MyTmpData::default();
    assert!(t.first_run());
    t.finish_first_run();
    assert!(!t.first_run());
    t.toggle_sidebar();
    t.show_library();
    t.open_settings();
    t.close_settings();
    t.select_playlist("Mix".to_string());
    t.request_confirm();
    assert!(t.confirm_window(true, false));
    t.playlist_deleted();
    t.open_new_playlist();
    t.new_playlist_window(true, false);
    t.clear_library();
    t.finish_first_run();
    assert!(!t.first_run());
}

#[test]
fn reading_the_library_twice_gives_one_list() {
    let mut t = MyTmpData::default();
    t.add_library_song(song("0", "Old", "Someone", "Gone"));
    for _ in 0..2 {
        t.clear_library();
        t.clear_library();
        t.add_library_song(song("1", "Yesterday", "The Beatles", "Help!"));
        t.add_library_song(song("2", "Paranoid", "Black Sabbath", "Paranoid"));
        assert_eq!(files(t.songlist()), vec!["1", "2"]);
    }
}
