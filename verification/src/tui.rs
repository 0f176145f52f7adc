//! The state of the terminal interface, the inputs it reacts to and the
//! work it hands out.
//!
//! The interface itself (drawing, the key reader, the `mpv` player and the
//! API worker) runs around the library; what it decides is computed here
//! from plain values. A decision never waits for outside work: work whose
//! outcome changes the state is handed out as a [`Plan`], and the state is
//! updated by [`crate::handler::finish_plan`] once it is known whether the
//! plan's commands went through.

use vstd::prelude::*;

use crate::bus::{Playlist, Song};
use crate::dao::PlayListPrivacy;
use crate::error::YError;

verus! {

/// The page shown.
#[derive(Clone, Copy, Debug, PartialEq, Eq, Structural)]
pub enum AppPage {
    Library,
    Search,
}

/// The pane that keys act on.
#[derive(Clone, Copy, Debug, PartialEq, Eq, Structural)]
pub enum FocusArea {
    Albums,
    Playlists,
    Queue,
    SearchAlbums,
    SearchSongs,
    Songs,
}

/// Whether the player plays the queue in order or shuffled.
#[derive(Clone, Copy, Debug, PartialEq, Eq, Structural)]
pub enum PlayMode {
    DefaultMode,
    ShuffleMode,
}

/// What the player is doing.
#[derive(Clone, Copy, Debug, PartialEq, Eq, Structural)]
pub enum PlayerStatus {
    Idle,
    Playing,
    Paused,
}

/// The field of the playlist-creation form being edited.
#[derive(Clone, Copy, Debug, PartialEq, Eq, Structural)]
pub enum CreatePlaylistFocus {
    Title,
    Description,
    Privacy,
}

/// The popup shown over the pages, if any.
pub enum PopupState {
    /// No popup.
    Closed,
    /// Choosing a playlist to save a song to.
    SaveSong { selected_save_song: Song },
    /// The form that creates a playlist.
    CreatePlaylist {
        title: String,
        description: String,
        privacy: PlayListPrivacy,
        focused_field: CreatePlaylistFocus,
    },
}

/// The kind of API request being waited for.
#[derive(Clone, Copy, Debug, PartialEq, Eq, Structural)]
pub enum ApiLoadingKind {
    FetchLibraryData,
    GetSongsToView,
    GetSongsToPlay,
    Search,
    SaveToPlaylist,
    CreatePlaylist,
}

/// A key press, as far as the interface tells keys apart.
#[derive(Clone, Copy, Debug, PartialEq, Eq, Structural)]
pub enum Key {
    Char(char),
    Tab,
    Enter,
    Esc,
    Backspace,
    Left,
    Right,
    Up,
    Down,
    Other,
}

/// A command to the `mpv` player.
pub enum MpvCommand {
    PlayPos(usize),
    TogglePause,
    Shuffle,
    Unshuffle,
    PlayNext,
    PlayPrev,
    DecreaseVol,
    IncreaseVol,
    SeekBackward(i64),
    SeekForward(i64),
    /// Append the song with this video id to mpv's playlist.
    AppendSong(String),
    RemovePos(usize),
    Clear,
    /// Load the playlist file written before.
    LoadList,
}

/// A request to the API worker.
pub enum ApiCmd {
    FetchLibraryData,
    GetSongsToView(Playlist),
    GetSongsToPlay(Playlist),
    GetRelatedSongsToPlay(Song),
    Search(String),
    SaveAlbum(Playlist),
    UnsaveAlbum(Playlist),
    UnsaveCusPlaylist(Playlist),
    LikeSong(Song),
    UnlikeSong(Song),
    SaveSong { song: Song, playlist_id: String },
    UnsaveSong { song: Song, playlist_id: String },
    CreatePlaylist { title: String, description: String, privacy: PlayListPrivacy },
}

/// An answer of the API worker.
pub enum ApiResponse {
    CreatePlaylist(Result<Playlist, YError>),
    SaveSong(Result<(Song, String), YError>),
    Search { albums: Result<Vec<Playlist>, YError>, songs: Result<Vec<Song>, YError> },
    LikeSong(Result<Song, YError>),
    UnlikeSong(Result<(), YError>, String),
    UnsaveSong(Result<(), YError>, String),
    GetSongsToView { songs: Result<Vec<Song>, YError>, playlist: Playlist },
    GetSongsToPlay { songs: Result<Vec<Song>, YError>, playlist_id: String },
    UnsaveAlbum(Result<(), YError>, Playlist),
    UnsaveCusPlaylist(Result<(), YError>, String),
    SaveAlbum(Result<(), YError>, Playlist),
    GetRelatedSongsToPlay(Result<Vec<Song>, YError>),
    FetchLibraryData(Result<(Vec<Playlist>, Vec<Playlist>, Vec<usize>), YError>),
}

/// An event reported by the `mpv` player, with what the interface reads
/// from it already extracted.
pub enum MpvEvent {
    /// mpv's playlist changed; the video ids it now holds, in order.
    ListChange(Vec<String>),
    /// mpv started the video with this id.
    StartPlaying(String),
    PauseChange(bool),
}

/// The operation whose failure a notification reports.
pub enum FailedAction {
    CreatePlaylist,
    Save,
    Like,
    Unlike(String),
    Unsave(String),
    FetchSongs,
    UnsaveAlbum(String),
    UnsavePlaylist(String),
    SaveAlbum(String),
    FetchRelatedSongs,
    FetchLibrary,
}

/// How a notification looks.
#[derive(Clone, Copy, Debug, PartialEq, Eq, Structural)]
pub enum NotifyType {
    Success,
    Error,
}

/// A notification shown to the user. A failure is also written to the log.
pub enum Notice {
    /// The session is not logged in.
    LoggedOut,
    ClearedQueue,
    RemovedFromQueue,
    CannotRemovePlaylist,
    TitleEmpty,
    ListAlreadyPlaying,
    CannotEditList,
    /// The song (by title) is in the queue already.
    AlreadyInQueue(String),
    AppendedToQueue(String),
    CreatedPlaylist,
    SavedToPlaylist(String),
    AlreadyInPlaylist,
    Liked(String),
    Unliked(String),
    Unsaved(String),
    UnsavedAlbum(String),
    UnsavedPlaylist(String),
    SavedAlbum(String),
    Failed(FailedAction, YError),
}

/// Outside work whose outcome decides how the state changes. Its commands
/// are sent in order, stopping at the first that fails; then the state is
/// finished with [`crate::handler::finish_plan`].
pub enum Plan {
    /// Send `Clear`; then empty the queue (and report it when `report`).
    Clear { report: bool },
    /// Send `RemovePos(mpv_idx)`; then remove the queue entry `idx`.
    Remove { idx: usize, mpv_idx: usize },
    /// Send `AppendSong` for the song, then `Shuffle` when `shuffle`; then
    /// put the song at the end of the queue.
    Append { song: Song, shuffle: bool },
    /// Write the songs as mpv's playlist file, send `LoadList`, then
    /// `PlayPos(start)` when `start > 0`, then `Shuffle` when `shuffle`;
    /// then the songs become the queue, played from `start`. When
    /// `focus_queue`, the queue pane takes the focus once the list is loaded.
    Load {
        songs: Vec<Song>,
        start: usize,
        playlist_id: Option<String>,
        shuffle: bool,
        focus_queue: bool,
    },
    /// Send one command; a failure is only logged.
    Send(MpvCommand),
    /// Send `Shuffle` (for the shuffle mode) or `Unshuffle`; then the mode
    /// is saved.
    SaveMode(PlayMode),
}

/// The playback clock shown in the interface.
#[derive(Clone, Copy, Debug, PartialEq, Eq, Structural)]
pub enum Clock {
    /// Restart from zero.
    Restart,
    /// Nothing is playing.
    Stop,
}

/// What the interface does besides changing its state.
pub enum Effect {
    Api(ApiCmd),
    Notify(Notice),
    /// Write an error to the log.
    Log(YError),
    /// Shut the player down.
    Shutdown,
    Run(Plan),
    Clock(Clock),
    /// Persist the play mode.
    SavePlayMode(PlayMode),
    /// Persist the queue (mpv's playlist changed).
    SaveQueue,
}

/// A move of a list's selection.
#[derive(Clone, Copy, Debug, PartialEq, Eq, Structural)]
pub enum ListMove {
    Next,
    Previous,
}

/// The lists whose selection the arrow keys move.
#[derive(Clone, Copy, Debug, PartialEq, Eq, Structural)]
pub enum ListId {
    CusPlaylists,
    Albums,
    Playlists,
    Queue,
    SearchAlbums,
    SearchSongs,
    Songs,
}

/// The state of the interface.
pub struct App {
    pub page: AppPage,
    pub focus_area: FocusArea,
    /// Typing into the search box.
    pub is_insert: bool,
    pub is_exit: bool,
    pub popup_state: PopupState,
    pub search_query: String,
    pub queue: Vec<Song>,
    pub queue_selected: Option<usize>,
    /// The queue entry being played.
    pub playing_song: Option<usize>,
    /// The album or playlist the queue was loaded from.
    pub playing_playlist_id: Option<String>,
    pub status: PlayerStatus,
    pub play_mode: PlayMode,
    pub albums: Vec<Playlist>,
    pub albums_selected: Option<usize>,
    pub playlists: Vec<Playlist>,
    pub playlists_selected: Option<usize>,
    /// Positions in `playlists` of the playlists a song can be saved to.
    pub cus_playlists: Vec<usize>,
    pub cus_playlists_selected: Option<usize>,
    pub search_albums: Vec<Playlist>,
    pub search_albums_selected: Option<usize>,
    pub search_songs: Vec<Song>,
    pub search_songs_selected: Option<usize>,
    /// The songs of the album or playlist being viewed.
    pub songs: Vec<Song>,
    pub songs_selected: Option<usize>,
    pub viewing_list: Option<Playlist>,
    pub api_loading_kind: Option<ApiLoadingKind>,
    /// The video ids of mpv's playlist, in mpv's order.
    pub mpv_list: Vec<String>,
}

/// The selection lies within its list.
pub open spec fn sel_ok(sel: Option<usize>, len: nat) -> bool {
    match sel {
        Some(i) => i < len,
        None => true,
    }
}

pub(crate) fn sel_within(sel: Option<usize>, len: usize) -> (res: bool)
    ensures
        res == sel_ok(sel, len as nat),
{
    match sel {
        Some(i) => i < len,
        None => true,
    }
}

impl App {
    /// A popup is shown.
    pub open spec fn popup_active(&self) -> bool {
        !(self.popup_state is Closed)
    }

    /// Whether a popup is shown.
    pub fn is_popup_active(&self) -> (res: bool)
        ensures
            res == self.popup_active(),
    {
        match &self.popup_state {
            PopupState::Closed => false,
            _ => true,
        }
    }
}

} // verus!
