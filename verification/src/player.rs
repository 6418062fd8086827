//! What the player controls ask the daemon to do, and the texts and cover
//! art they show.

use vstd::prelude::*;
use vstd::string::*;
use crate::song::Song;

verus! {

/// The daemon's playback state.
#[derive(Clone, Copy, PartialEq, Eq, Structural, Debug)]
pub enum PlayerState {
    Stop,
    Play,
    Pause,
}

/// What the play/pause button asks of the daemon.
#[derive(Clone, Copy, PartialEq, Eq, Structural, Debug)]
pub enum PlayAction {
    /// Pause playback.
    Pause,
    /// Start or resume playback, then refresh the cover art.
    Play,
}

/// The play/pause button: it pauses while a song plays and plays otherwise.
pub fn play_button_action(state: PlayerState) -> (r: PlayAction)
    ensures
        r == (if state == PlayerState::Play { PlayAction::Pause } else { PlayAction::Play }),
{
    match state {
        PlayerState::Play => PlayAction::Pause,
        _ => PlayAction::Play,
    }
}

/// What moving the position slider asks of the daemon.
#[derive(Clone, Copy, PartialEq, Eq, Structural, Debug)]
pub enum SeekAction {
    /// Leave playback where it is.
    Stay,
    /// Jump back to this second of the current song.
    Rewind(u32),
    /// Jump forward: seek the song at this queue position to this second.
    Seek(u32, u32),
}

/// The position slider. `changed` tells whether the user moved it,
/// `target` is the second it now shows, `elapsed` the second the daemon
/// reports and `song_pos` the current song's queue position. A move to an
/// earlier second rewinds, a move to a later one seeks, anything else stays.
pub fn seek_action(changed: bool, target: u64, elapsed: u64, song_pos: u32) -> (r: SeekAction)
    requires
        changed && target != elapsed ==> target <= u32::MAX,
    ensures
        r == (if changed && target < elapsed {
            SeekAction::Rewind(target as u32)
        } else if changed && target > elapsed {
            SeekAction::Seek(song_pos, target as u32)
        } else {
            SeekAction::Stay
        }),
{
    if changed && target < elapsed {
        SeekAction::Rewind(target as u32)
    } else if changed && target > elapsed {
        SeekAction::Seek(song_pos, target as u32)
    } else {
        SeekAction::Stay
    }
}

/// The notification text that announces a song.
pub open spec fn now_playing_text(title: Seq<char>) -> Seq<char> {
    "Now playing: \""@ + title + "\""@
}

/// Builds the text that announces the song `title` (see
/// [`now_playing_text`]).
pub fn now_playing_message(title: &str) -> (r: String)
    ensures
        r@ == now_playing_text(title@),
{
    let mut s = String::from_str("Now playing: \"");
    s.append(title);
    s.append("\"");
    s
}

/// The cover art to show.
pub enum Cover {
    /// The image data of the song's first embedded picture.
    Picture(Vec<u8>),
    /// The placeholder image, for songs without a picture.
    Placeholder,
}

/// Picks the cover art of the current song from the pictures of its tags:
/// the primary tag when the file has one, else its first tag. The first
/// picture of that tag is the cover; a tag without pictures gives the
/// placeholder. A file without any tag is left out (it has no cover to
/// choose from).
pub fn choose_cover(primary: Option<Vec<Vec<u8>>>, first: Option<Vec<Vec<u8>>>) -> (r: Cover)
    requires
        primary is Some || first is Some,
    ensures
        ({
            let pics = if primary is Some { primary->0 } else { first->0 };
            match r {
                Cover::Picture(data) => pics@.len() >= 1 && data@ == pics@[0]@,
                Cover::Placeholder => pics@.len() == 0,
            }
        }),
{
    let pics = match primary {
        Some(p) => p,
        None => match first {
            Some(f) => f,
            None => Vec::new(),
        },
    };
    if pics.len() >= 1 {
        let mut pics = pics;
        let data = pics.swap_remove(0);
        Cover::Picture(data)
    } else {
        Cover::Placeholder
    }
}

/// The queue position of the last song in the queue: where a song that was
/// just added stands.
pub fn last_queue_position(queue: &Vec<Song>) -> (r: u32)
    requires
        queue@.len() > 0,
        queue@.last().place is Some,
    ensures
        r == queue@.last().place->0.pos,
{
    let n = queue.len();
    match queue[n - 1].place {
        Some(p) => p.pos,
        None => 0,
    }
}

/// The position that the delete button of a saved playlist's row passes to
/// the daemon, for the row at zero-based index `pos`. For every row it can
/// be asked for, this is `u32::MAX`: the index minus one is compared with
/// `u32::MAX`, every smaller value is replaced by `u32::MAX`, and the only
/// other value that fits is `u32::MAX` itself. The first row has no index
/// before it.
pub fn playlist_delete_position(pos: usize) -> (r: u32)
    requires
        1 <= pos,
        pos - 1 <= u32::MAX,
    ensures
        r == u32::MAX,
{
    let before = pos - 1;
    if before < 4294967295 {
        4294967295
    } else {
        before as u32
    }
}

} // verus!
