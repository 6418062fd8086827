//! The settings that persist between runs, and what the settings window
//! does to them.

use vstd::prelude::*;
use vstd::string::*;
use crate::text::{is_substring, str_contains};

verus! {

/// The persistent settings.
pub struct TangelloConfig {
    pub dark_mode: bool,
    /// Whether a desktop notification announces each new song.
    pub notifications: bool,
    /// The address of the music daemon in use.
    pub mpd_address: String,
    /// The folder that holds the music files, which the cover art is read
    /// from.
    pub music_path: String,
    /// The music folder as typed in the settings window, not yet applied.
    pub tmp_music_path: String,
    /// The name fragments that mark a file as music.
    pub filetypes: Vec<String>,
    /// The daemon address as typed in the settings window, not yet applied.
    pub tmp_address: String,
}

/// The mathematical value of a [`TangelloConfig`].
pub struct ConfigView {
    pub dark_mode: bool,
    pub notifications: bool,
    pub mpd_address: Seq<char>,
    pub music_path: Seq<char>,
    pub tmp_music_path: Seq<char>,
    pub filetypes: Seq<Seq<char>>,
    pub tmp_address: Seq<char>,
}

/// The characters of each string in a list.
pub open spec fn strings_view(v: Seq<String>) -> Seq<Seq<char>> {
    v.map_values(|s: String| s@)
}

impl vstd::view::View for TangelloConfig {
    type V = ConfigView;

    open spec fn view(&self) -> ConfigView {
        ConfigView {
            dark_mode: self.dark_mode,
            notifications: self.notifications,
            mpd_address: self.mpd_address@,
            music_path: self.music_path@,
            tmp_music_path: self.tmp_music_path@,
            filetypes: strings_view(self.filetypes@),
            tmp_address: self.tmp_address@,
        }
    }
}

/// The address a fresh configuration points at: a daemon on this machine,
/// on the daemon's usual port.
pub open spec fn default_address() -> Seq<char> {
    "127.0.0.1:6600"@
}

/// The name fragments that mark a file as music in a fresh configuration.
pub open spec fn default_filetypes() -> Seq<Seq<char>> {
    seq![
        ".flac"@, ".mp3"@, ".ogg"@, "opus"@, "m4a"@, "aif"@, "aiff"@, "wav"@,
        "oga"@, "mogg"@, "ogv"@, "ogx"@, "ogm"@, "spx"@, "raw"@,
    ]
}

/// A file is music when its name contains one of the configured fragments.
pub open spec fn is_music_name(filetypes: Seq<Seq<char>>, name: Seq<char>) -> bool {
    exists|i: int| 0 <= i < filetypes.len() && is_substring(#[trigger] filetypes[i], name)
}

fn copy_strings(v: &Vec<String>) -> (r: Vec<String>)
    ensures
        strings_view(r@) == strings_view(v@),
{
    let mut r: Vec<String> = Vec::new();
    let mut i: usize = 0;
    while i < v.len()
        invariant
            i <= v@.len(),
            r@.len() == i,
            forall|k: int| 0 <= k < i ==> #[trigger] r@[k]@ == v@[k]@,
        decreases v@.len() - i,
    {
        r.push(v[i].clone());
        i = i + 1;
    }
    assert(strings_view(r@) =~= strings_view(v@));
    r
}

/// The settings after the apply button beside the address field, given
/// whether a daemon answered at the typed address.
pub open spec fn address_applied(c: ConfigView, server_found: bool) -> ConfigView {
    if server_found {
        ConfigView { mpd_address: c.tmp_address, ..c }
    } else {
        c
    }
}

/// The settings after the dark mode button.
pub open spec fn dark_mode_toggled(c: ConfigView) -> ConfigView {
    ConfigView { dark_mode: !c.dark_mode, ..c }
}

/// The settings after the notifications button.
pub open spec fn notifications_toggled(c: ConfigView) -> ConfigView {
    ConfigView { notifications: !c.notifications, ..c }
}

/// The settings written to disk when the settings window closes: every
/// setting as it stands, except that the typed address is replaced by the
/// address in use.
pub open spec fn stored_config(c: ConfigView) -> ConfigView {
    ConfigView { tmp_address: c.mpd_address, ..c }
}

impl TangelloConfig {
    /// A fresh configuration whose music folder is `music_dir`: dark mode
    /// and notifications on, the default daemon address, both typed fields
    /// showing the applied values, and the default music name fragments.
    pub fn with_music_dir(music_dir: &str) -> (r: TangelloConfig)
        ensures
            r@ == (ConfigView {
                dark_mode: true,
                notifications: true,
                mpd_address: default_address(),
                music_path: music_dir@,
                tmp_music_path: music_dir@,
                filetypes: default_filetypes(),
                tmp_address: default_address(),
            }),
    {
        let mut filetypes: Vec<String> = Vec::new();
        filetypes.push(String::from_str(".flac"));
        filetypes.push(String::from_str(".mp3"));
        filetypes.push(String::from_str(".ogg"));
        filetypes.push(String::from_str("opus"));
        filetypes.push(String::from_str("m4a"));
        filetypes.push(String::from_str("aif"));
        filetypes.push(String::from_str("aiff"));
        filetypes.push(String::from_str("wav"));
        filetypes.push(String::from_str("oga"));
        filetypes.push(String::from_str("mogg"));
        filetypes.push(String::from_str("ogv"));
        filetypes.push(String::from_str("ogx"));
        filetypes.push(String::from_str("ogm"));
        filetypes.push(String::from_str("spx"));
        filetypes.push(String::from_str("raw"));
        assert(strings_view(filetypes@) =~= default_filetypes());
        TangelloConfig {
            dark_mode: true,
            notifications: true,
            mpd_address: String::from_str("127.0.0.1:6600"),
            music_path: String::from_str(music_dir),
            tmp_music_path: String::from_str(music_dir),
            filetypes,
            tmp_address: String::from_str("127.0.0.1:6600"),
        }
    }

    /// Whether a file of this name counts as music: its name contains one of
    /// the configured fragments.
    pub fn is_music_file(&self, name: &str) -> (r: bool)
        ensures
            r == is_music_name(self@.filetypes, name@),
    {
        let mut i: usize = 0;
        while i < self.filetypes.len()
            invariant
                i <= self.filetypes@.len(),
                forall|k: int| 0 <= k < i ==> !is_substring(#[trigger] self@.filetypes[k], name@),
            decreases self.filetypes@.len() - i,
        {
            if str_contains(name, self.filetypes[i].as_str()) {
                assert(is_substring(self@.filetypes[i as int], name@));
                return true;
            }
            i = i + 1;
        }
        false
    }

    /// The apply button beside the address field. `server_found` tells
    /// whether a daemon answered at the typed address: if it did, the typed
    /// address becomes the one in use; if not, nothing changes and the
    /// result asks for a notification that no daemon was found.
    pub fn apply_address(&mut self, server_found: bool) -> (notify: bool)
        ensures
            notify == !server_found,
            final(self)@ == address_applied(old(self)@, server_found),
    {
        if server_found {
            self.mpd_address = self.tmp_address.clone();
            false
        } else {
            true
        }
    }

    /// The apply button beside the music folder field: the typed folder
    /// becomes the one in use.
    pub fn apply_music_path(&mut self)
        ensures
            final(self)@ == (ConfigView { music_path: old(self)@.tmp_music_path, ..old(self)@ }),
    {
        self.music_path = self.tmp_music_path.clone();
    }

    /// The dark mode button: switches dark mode over.
    pub fn toggle_dark_mode(&mut self)
        ensures
            final(self)@ == dark_mode_toggled(old(self)@),
    {
        self.dark_mode = !self.dark_mode;
    }

    /// The notifications button: switches notifications over.
    pub fn toggle_notifications(&mut self)
        ensures
            final(self)@ == notifications_toggled(old(self)@),
    {
        self.notifications = !self.notifications;
    }

    /// The configuration written to disk when the settings window closes:
    /// every setting as it stands, except that the typed address is
    /// replaced by the address in use.
    pub fn stored(&self) -> (r: TangelloConfig)
        ensures
            r@ == stored_config(self@),
    {
        TangelloConfig {
            dark_mode: self.dark_mode,
            notifications: self.notifications,
            mpd_address: self.mpd_address.clone(),
            music_path: self.music_path.clone(),
            tmp_music_path: self.tmp_music_path.clone(),
            filetypes: copy_strings(&self.filetypes),
            tmp_address: self.mpd_address.clone(),
        }
    }
}

} // verus!
