//! How the terminal interface reacts to keys, to the player and to the API
//! worker.
//!
//! Every handler takes the state and the input and returns the effects to
//! carry out, in order. Work whose outcome changes the state is returned as
//! an [`Effect::Run`] of a [`Plan`]; [`finish_plan`] then applies what the
//! plan decides, given whether its commands went through.

use vstd::prelude::*;

use crate::bus::{copy_playlist, copy_song, copy_songs, Playlist, Song};
use crate::dao::PlayListPrivacy;
use crate::text::{chars_eq, push_str, str_chars, string_from_chars};
use crate::tui::{
    ApiCmd, ApiLoadingKind, App, AppPage, Clock, CreatePlaylistFocus, Effect, FocusArea, Key,
    ListId, MpvCommand, Notice, Plan, PlayMode, PlayerStatus, PopupState, sel_ok, sel_within,
};

verus! {

// ---------------------------------------------------------------------------
// Pages and lists
// ---------------------------------------------------------------------------

/// Switching page with Tab. Going to the search page types into the search
/// box at once when there is nothing to show yet, and otherwise moves the
/// focus to the album results (unless the queue has it); going back to the
/// library stops typing and moves the focus to the albums (unless the queue
/// has it).
pub open spec fn after_page_event(a: App) -> App {
    match a.page {
        AppPage::Library => if a.queue@.len() == 0 && a.search_songs@.len() == 0 {
            App { page: AppPage::Search, is_insert: true, ..a }
        } else if a.focus_area != FocusArea::Queue {
            App { page: AppPage::Search, focus_area: FocusArea::SearchAlbums, ..a }
        } else {
            App { page: AppPage::Search, ..a }
        },
        AppPage::Search => App {
            page: AppPage::Library,
            is_insert: false,
            focus_area: if a.focus_area != FocusArea::Queue {
                FocusArea::Albums
            } else {
                a.focus_area
            },
            ..a
        },
    }
}

/// Switches page (see [`after_page_event`]).
pub fn handle_page_event(app: &mut App)
    ensures
        *final(app) == after_page_event(*old(app)),
{
    match app.page {
        AppPage::Library => {
            app.page = AppPage::Search;
            if app.queue.len() == 0 && app.search_songs.len() == 0 {
                app.is_insert = true;
            } else if app.focus_area != FocusArea::Queue {
                app.focus_area = FocusArea::SearchAlbums;
            }
        },
        AppPage::Search => {
            app.is_insert = false;
            app.page = AppPage::Library;
            if app.focus_area != FocusArea::Queue {
                app.focus_area = FocusArea::Albums;
            }
        },
    }
}

/// How a key moves the selection of a list: down (or `j`) to the next
/// entry, up (or `k`) to the previous one.
pub open spec fn list_move_of(key: Key) -> Option<crate::tui::ListMove> {
    if key == Key::Down || key == Key::Char('j') {
        Some(crate::tui::ListMove::Next)
    } else if key == Key::Up || key == Key::Char('k') {
        Some(crate::tui::ListMove::Previous)
    } else {
        None
    }
}

/// How a key moves the selection of a list (see [`list_move_of`]).
pub fn list_move(key: Key) -> (res: Option<crate::tui::ListMove>)
    ensures
        res == list_move_of(key),
{
    if key == Key::Down || key == Key::Char('j') {
        Some(crate::tui::ListMove::Next)
    } else if key == Key::Up || key == Key::Char('k') {
        Some(crate::tui::ListMove::Previous)
    } else {
        None
    }
}

/// The list whose selection the arrow keys move, and its length: the
/// playlists offered by the save popup while it is open, otherwise the list
/// of the focused pane. Nothing moves while another popup is open or while
/// typing into the search box.
pub open spec fn navigated_list(a: App) -> Option<(ListId, nat)> {
    if a.popup_state is SaveSong {
        Some((ListId::CusPlaylists, a.cus_playlists@.len()))
    } else if a.popup_active() || a.is_insert {
        None
    } else {
        Some(
            match a.focus_area {
                FocusArea::Albums => (ListId::Albums, a.albums@.len()),
                FocusArea::Playlists => (ListId::Playlists, a.playlists@.len()),
                FocusArea::Queue => (ListId::Queue, a.queue@.len()),
                FocusArea::SearchAlbums => (ListId::SearchAlbums, a.search_albums@.len()),
                FocusArea::SearchSongs => (ListId::SearchSongs, a.search_songs@.len()),
                FocusArea::Songs => (ListId::Songs, a.songs@.len()),
            },
        )
    }
}

/// The list the arrow keys move (see [`navigated_list`]).
pub fn list_to_navigate(app: &App) -> (res: Option<(ListId, usize)>)
    ensures
        match (res, navigated_list(*app)) {
            (Some((l, n)), Some((m, k))) => l == m && n == k,
            (None, None) => true,
            _ => false,
        },
{
    match &app.popup_state {
        PopupState::SaveSong { .. } => {
            return Some((ListId::CusPlaylists, app.cus_playlists.len()));
        },
        PopupState::CreatePlaylist { .. } => {
            return None;
        },
        PopupState::Closed => {},
    }
    if app.is_insert {
        return None;
    }
    Some(
        match app.focus_area {
            FocusArea::Albums => (ListId::Albums, app.albums.len()),
            FocusArea::Playlists => (ListId::Playlists, app.playlists.len()),
            FocusArea::Queue => (ListId::Queue, app.queue.len()),
            FocusArea::SearchAlbums => (ListId::SearchAlbums, app.search_albums.len()),
            FocusArea::SearchSongs => (ListId::SearchSongs, app.search_songs.len()),
            FocusArea::Songs => (ListId::Songs, app.songs.len()),
        },
    )
}

// ---------------------------------------------------------------------------
// The player keys
// ---------------------------------------------------------------------------

/// The other play mode.
pub open spec fn toggled_mode(m: PlayMode) -> PlayMode {
    match m {
        PlayMode::DefaultMode => PlayMode::ShuffleMode,
        PlayMode::ShuffleMode => PlayMode::DefaultMode,
    }
}

/// The player keys: space pauses or resumes while a song plays; `m`
/// switches the play mode (the state changes at once, the player is told,
/// and the mode is saved once it took it); `n` and `b` skip forward and
/// back when the queue has songs; `-` and `+` change the volume; the left
/// and right arrows seek by `seek_seconds`.
pub open spec fn player_event(old: App, key: Key, seek_seconds: i64, new: App, eff: Seq<Effect>) -> bool {
    match key {
        Key::Char(' ') => if old.playing_song is Some {
            new == old && eff == seq![Effect::Run(Plan::Send(MpvCommand::TogglePause))]
        } else {
            new == old && eff == Seq::<Effect>::empty()
        },
        Key::Char('m') => new == App { play_mode: toggled_mode(old.play_mode), ..old } && eff
            == seq![Effect::Run(Plan::SaveMode(toggled_mode(old.play_mode)))],
        Key::Char('n') => new == old && eff == if old.queue@.len() > 0 {
            seq![Effect::Run(Plan::Send(MpvCommand::PlayNext))]
        } else {
            Seq::<Effect>::empty()
        },
        Key::Char('b') => new == old && eff == if old.queue@.len() > 0 {
            seq![Effect::Run(Plan::Send(MpvCommand::PlayPrev))]
        } else {
            Seq::<Effect>::empty()
        },
        Key::Char('-') => new == old && eff == seq![Effect::Run(Plan::Send(MpvCommand::DecreaseVol))],
        Key::Char('+') => new == old && eff == seq![Effect::Run(Plan::Send(MpvCommand::IncreaseVol))],
        Key::Left => new == old && eff == seq![
            Effect::Run(Plan::Send(MpvCommand::SeekBackward(seek_seconds))),
        ],
        Key::Right => new == old && eff == seq![
            Effect::Run(Plan::Send(MpvCommand::SeekForward(seek_seconds))),
        ],
        _ => new == old && eff == Seq::<Effect>::empty(),
    }
}

/// Reacts to the player keys (see [`player_event`]).
pub fn handle_player_event(app: &mut App, key: Key, seek_seconds: i64) -> (res: Vec<Effect>)
    ensures
        player_event(*old(app), key, seek_seconds, *final(app), res@),
{
    let mut eff: Vec<Effect> = Vec::new();
    match key {
        Key::Char(' ') => {
            if app.playing_song.is_some() {
                eff.push(Effect::Run(Plan::Send(MpvCommand::TogglePause)));
            }
        },
        Key::Char('m') => {
            let mode = match app.play_mode {
                PlayMode::DefaultMode => PlayMode::ShuffleMode,
                PlayMode::ShuffleMode => PlayMode::DefaultMode,
            };
            app.play_mode = mode;
            eff.push(Effect::Run(Plan::SaveMode(mode)));
        },
        Key::Char('n') => {
            if app.queue.len() > 0 {
                eff.push(Effect::Run(Plan::Send(MpvCommand::PlayNext)));
            }
        },
        Key::Char('b') => {
            if app.queue.len() > 0 {
                eff.push(Effect::Run(Plan::Send(MpvCommand::PlayPrev)));
            }
        },
        Key::Char('-') => {
            eff.push(Effect::Run(Plan::Send(MpvCommand::DecreaseVol)));
        },
        Key::Char('+') => {
            eff.push(Effect::Run(Plan::Send(MpvCommand::IncreaseVol)));
        },
        Key::Left => {
            eff.push(Effect::Run(Plan::Send(MpvCommand::SeekBackward(seek_seconds))));
        },
        Key::Right => {
            eff.push(Effect::Run(Plan::Send(MpvCommand::SeekForward(seek_seconds))));
        },
        _ => {},
    }
    assert(eff@ =~= eff@);
    eff
}

// ---------------------------------------------------------------------------
// Popups
// ---------------------------------------------------------------------------

/// The playlist the save popup's selection points at, if it points at one.
pub open spec fn save_target(a: App) -> Option<Playlist> {
    match a.cus_playlists_selected {
        Some(i) => if i < a.cus_playlists@.len() && a.cus_playlists@[i as int] < a.playlists@.len() {
            Some(a.playlists@[a.cus_playlists@[i as int] as int])
        } else {
            None
        },
        None => None,
    }
}

/// The next field of the playlist form (Tab goes round).
pub open spec fn next_field(f: CreatePlaylistFocus) -> CreatePlaylistFocus {
    match f {
        CreatePlaylistFocus::Title => CreatePlaylistFocus::Description,
        CreatePlaylistFocus::Description => CreatePlaylistFocus::Privacy,
        CreatePlaylistFocus::Privacy => CreatePlaylistFocus::Title,
    }
}

/// The privacy one step to the left: Public, then Private, then Unlisted,
/// round again.
pub open spec fn privacy_left(p: PlayListPrivacy) -> PlayListPrivacy {
    match p {
        PlayListPrivacy::Public => PlayListPrivacy::Private,
        PlayListPrivacy::Unlisted => PlayListPrivacy::Public,
        PlayListPrivacy::Private => PlayListPrivacy::Unlisted,
    }
}

/// The privacy one step to the right (the opposite of [`privacy_left`]).
pub open spec fn privacy_right(p: PlayListPrivacy) -> PlayListPrivacy {
    match p {
        PlayListPrivacy::Public => PlayListPrivacy::Unlisted,
        PlayListPrivacy::Unlisted => PlayListPrivacy::Private,
        PlayListPrivacy::Private => PlayListPrivacy::Public,
    }
}

/// A text with its last character removed, if it has one.
pub open spec fn backspaced(t: Seq<char>) -> Seq<char> {
    if t.len() > 0 {
        t.drop_last()
    } else {
        t
    }
}

/// The playlist form after a key: Tab moves to the next field; on the
/// privacy field the left and right arrows (or `h` and `l`) change the
/// privacy; on the text fields characters are typed and Backspace deletes.
pub open spec fn form_edit(
    title: Seq<char>,
    description: Seq<char>,
    privacy: PlayListPrivacy,
    field: CreatePlaylistFocus,
    key: Key,
) -> (Seq<char>, Seq<char>, PlayListPrivacy, CreatePlaylistFocus) {
    let on_privacy = field == CreatePlaylistFocus::Privacy;
    if key == Key::Tab {
        (title, description, privacy, next_field(field))
    } else if (key == Key::Left || key == Key::Char('h')) && on_privacy {
        (title, description, privacy_left(privacy), field)
    } else if (key == Key::Right || key == Key::Char('l')) && on_privacy {
        (title, description, privacy_right(privacy), field)
    } else if key is Char && !on_privacy {
        if field == CreatePlaylistFocus::Title {
            (title.push(key->0), description, privacy, field)
        } else {
            (title, description.push(key->0), privacy, field)
        }
    } else if key == Key::Backspace && !on_privacy {
        if field == CreatePlaylistFocus::Title {
            (backspaced(title), description, privacy, field)
        } else {
            (title, backspaced(description), privacy, field)
        }
    } else {
        (title, description, privacy, field)
    }
}

/// The keys of the open popup. Esc closes it. In the save popup, Enter
/// saves the song to the selected playlist (liking it, for the liked-songs
/// playlist `LM`) and waits for the answer. In the playlist form, Enter
/// asks to create the playlist unless the title is empty, and other keys
/// edit the form (see [`form_edit`]).
pub open spec fn popup_event(old: App, key: Key, new: App, eff: Seq<Effect>) -> bool {
    match old.popup_state {
        PopupState::SaveSong { selected_save_song: song } => match key {
            Key::Esc => new == App { popup_state: PopupState::Closed, ..old } && eff
                == Seq::<Effect>::empty(),
            Key::Enter => match save_target(old) {
                Some(p) => new == App {
                    api_loading_kind: Some(ApiLoadingKind::SaveToPlaylist),
                    ..old
                } && eff == seq![
                    Effect::Api(
                        if p.playlist_id@ == "LM"@ {
                            ApiCmd::LikeSong(song)
                        } else {
                            ApiCmd::SaveSong { song, playlist_id: p.playlist_id }
                        },
                    ),
                ],
                None => new == old && eff == Seq::<Effect>::empty(),
            },
            _ => new == old && eff == Seq::<Effect>::empty(),
        },
        PopupState::CreatePlaylist { title, description, privacy, focused_field } => match key {
            Key::Esc => new == App { popup_state: PopupState::Closed, ..old } && eff
                == Seq::<Effect>::empty(),
            Key::Enter => if title@.len() == 0 {
                new == old && eff == seq![Effect::Notify(Notice::TitleEmpty)]
            } else {
                new == App { api_loading_kind: Some(ApiLoadingKind::CreatePlaylist), ..old } && eff
                    == seq![Effect::Api(ApiCmd::CreatePlaylist { title, description, privacy })]
            },
            _ => {
                let (t, d, p, f) = form_edit(title@, description@, privacy, focused_field, key);
                &&& eff == Seq::<Effect>::empty()
                &&& new == App { popup_state: new.popup_state, ..old }
                &&& new.popup_state matches PopupState::CreatePlaylist {
                    title: t2,
                    description: d2,
                    privacy: p2,
                    focused_field: f2,
                }
                &&& t2@ == t && d2@ == d && p2 == p && f2 == f
            },
        },
        PopupState::Closed => new == old && eff == Seq::<Effect>::empty(),
    }
}

fn typed(t: String, c: char) -> (res: String)
    ensures
        res@ == t@.push(c),
{
    let mut cs = str_chars(t.as_str());
    cs.push(c);
    string_from_chars(cs.as_slice())
}

fn erased(t: String) -> (res: String)
    ensures
        res@ == backspaced(t@),
{
    let mut cs = str_chars(t.as_str());
    if cs.len() > 0 {
        cs.pop();
        string_from_chars(cs.as_slice())
    } else {
        t
    }
}

fn save_target_of(app: &App) -> (res: Option<&Playlist>)
    ensures
        match (res, save_target(*app)) {
            (Some(p), Some(q)) => *p == q,
            (None, None) => true,
            _ => false,
        },
{
    match app.cus_playlists_selected {
        Some(i) => {
            if i < app.cus_playlists.len() {
                let idx = app.cus_playlists[i];
                if idx < app.playlists.len() {
                    return Some(&app.playlists[idx]);
                }
            }
            None
        },
        None => None,
    }
}

fn is_liked_songs(id: &str) -> (res: bool)
    ensures
        res == (id@ == "LM"@),
{
    chars_eq(str_chars(id).as_slice(), str_chars("LM").as_slice())
}

/// Reacts to a key while a popup is open (see [`popup_event`]).
pub fn handle_popup_event(app: &mut App, key: Key) -> (res: Vec<Effect>)
    ensures
        popup_event(*old(app), key, *final(app), res@),
{
    let mut eff: Vec<Effect> = Vec::new();
    let mut popup = PopupState::Closed;
    std::mem::swap(&mut popup, &mut app.popup_state);
    match popup {
        PopupState::SaveSong { selected_save_song } => {
            match key {
                Key::Esc => {},
                Key::Enter => {
                    let target = match save_target_of(app) {
                        Some(p) => Some(copy_playlist(p)),
                        None => None,
                    };
                    match target {
                        Some(p) => {
                            let song = copy_song(&selected_save_song);
                            if is_liked_songs(p.playlist_id.as_str()) {
                                eff.push(Effect::Api(ApiCmd::LikeSong(song)));
                            } else {
                                eff.push(
                                    Effect::Api(ApiCmd::SaveSong { song, playlist_id: p.playlist_id }),
                                );
                            }
                            app.api_loading_kind = Some(ApiLoadingKind::SaveToPlaylist);
                        },
                        None => {},
                    }
                    app.popup_state = PopupState::SaveSong { selected_save_song };
                },
                _ => {
                    app.popup_state = PopupState::SaveSong { selected_save_song };
                },
            }
        },
        PopupState::CreatePlaylist { title, description, privacy, focused_field } => {
            match key {
                Key::Esc => {},
                Key::Enter => {
                    if title.as_str().is_empty() {
                        eff.push(Effect::Notify(Notice::TitleEmpty));
                    } else {
                        eff.push(
                            Effect::Api(
                                ApiCmd::CreatePlaylist {
                                    title: title.clone(),
                                    description: description.clone(),
                                    privacy,
                                },
                            ),
                        );
                        app.api_loading_kind = Some(ApiLoadingKind::CreatePlaylist);
                    }
                    app.popup_state = PopupState::CreatePlaylist {
                        title,
                        description,
                        privacy,
                        focused_field,
                    };
                },
                _ => {
                    let mut title = title;
                    let mut description = description;
                    let mut privacy = privacy;
                    let mut focused_field = focused_field;
                    let on_privacy = focused_field == CreatePlaylistFocus::Privacy;
                    if key == Key::Tab {
                        focused_field =
                            match focused_field {
                                CreatePlaylistFocus::Title => CreatePlaylistFocus::Description,
                                CreatePlaylistFocus::Description => CreatePlaylistFocus::Privacy,
                                CreatePlaylistFocus::Privacy => CreatePlaylistFocus::Title,
                            };
                    } else if (key == Key::Left || key == Key::Char('h')) && on_privacy {
                        privacy =
                            match privacy {
                                PlayListPrivacy::Public => PlayListPrivacy::Private,
                                PlayListPrivacy::Unlisted => PlayListPrivacy::Public,
                                PlayListPrivacy::Private => PlayListPrivacy::Unlisted,
                            };
                    } else if (key == Key::Right || key == Key::Char('l')) && on_privacy {
                        privacy =
                            match privacy {
                                PlayListPrivacy::Public => PlayListPrivacy::Unlisted,
                                PlayListPrivacy::Unlisted => PlayListPrivacy::Private,
                                PlayListPrivacy::Private => PlayListPrivacy::Public,
                            };
                    } else if !on_privacy {
                        match key {
                            Key::Char(c) => {
                                if focused_field == CreatePlaylistFocus::Title {
                                    title = typed(title, c);
                                } else {
                                    description = typed(description, c);
                                }
                            },
                            Key::Backspace => {
                                if focused_field == CreatePlaylistFocus::Title {
                                    title = erased(title);
                                } else {
                                    description = erased(description);
                                }
                            },
                            _ => {},
                        }
                    }
                    app.popup_state = PopupState::CreatePlaylist {
                        title,
                        description,
                        privacy,
                        focused_field,
                    };
                },
            }
        },
        PopupState::Closed => {},
    }
    eff
}

// ---------------------------------------------------------------------------
// The queue
// ---------------------------------------------------------------------------

/// The first position of the video `vid` in mpv's playlist.
pub open spec fn mpv_position_from(ids: Seq<String>, vid: Seq<char>, i: int) -> Option<int>
    decreases ids.len() - i,
{
    if i < 0 || i >= ids.len() {
        None
    } else if ids[i]@ == vid {
        Some(i)
    } else {
        mpv_position_from(ids, vid, i + 1)
    }
}

pub open spec fn mpv_position(ids: Seq<String>, vid: Seq<char>) -> Option<int> {
    mpv_position_from(ids, vid, 0)
}

/// Where mpv holds the video `video_id` (see [`mpv_position`]).
pub fn get_mpv_idx(app: &App, video_id: &str) -> (res: Option<usize>)
    ensures
        match (res, mpv_position(app.mpv_list@, video_id@)) {
            (Some(r), Some(e)) => r == e,
            (None, None) => true,
            _ => false,
        },
{
    let vid = str_chars(video_id);
    let mut i: usize = 0;
    while i < app.mpv_list.len()
        invariant
            i <= app.mpv_list@.len(),
            vid@ == video_id@,
            mpv_position(app.mpv_list@, video_id@) == mpv_position_from(
                app.mpv_list@,
                video_id@,
                i as int,
            ),
        decreases app.mpv_list@.len() - i,
    {
        if chars_eq(str_chars(app.mpv_list[i].as_str()).as_slice(), vid.as_slice()) {
            return Some(i);
        }
        i += 1;
    }
    None
}

/// The queue keys: `d` removes the selected song (from mpv at the same
/// position in order mode, at the position mpv holds it in shuffle mode);
/// Enter plays it. Both wait for mpv; the state is not changed yet.
pub open spec fn queue_event(old: App, key: Key, new: App, eff: Seq<Effect>) -> bool {
    &&& new == old
    &&& match old.queue_selected {
        Some(i) => {
            let pos = mpv_position(old.mpv_list@, old.queue@[i as int].video_id@);
            if key == Key::Char('d') {
                eff == if old.play_mode == PlayMode::DefaultMode {
                    seq![Effect::Run(Plan::Remove { idx: i, mpv_idx: i })]
                } else {
                    match pos {
                        Some(m) => seq![Effect::Run(Plan::Remove { idx: i, mpv_idx: m as usize })],
                        None => Seq::<Effect>::empty(),
                    }
                }
            } else if key == Key::Enter {
                eff == if old.play_mode == PlayMode::DefaultMode {
                    seq![Effect::Run(Plan::Send(MpvCommand::PlayPos(i)))]
                } else {
                    match pos {
                        Some(m) => seq![Effect::Run(Plan::Send(MpvCommand::PlayPos(m as usize)))],
                        None => Seq::<Effect>::empty(),
                    }
                }
            } else {
                eff == Seq::<Effect>::empty()
            }
        },
        None => eff == Seq::<Effect>::empty(),
    }
}

/// Outside the default play mode the queue reads the selected song
/// directly for `d` and `Enter`: there the selection must point at a song.
pub open spec fn queue_keys_ok(a: App, key: Key) -> bool {
    ((key == Key::Char('d') || key == Key::Enter) && a.play_mode != PlayMode::DefaultMode) ==> sel_ok(
        a.queue_selected,
        a.queue@.len(),
    )
}

/// Reacts to the queue keys (see [`queue_event`]).
pub fn handle_queue_event(app: &App, key: Key) -> (res: Vec<Effect>)
    requires
        queue_keys_ok(*app, key),
    ensures
        queue_event(*app, key, *app, res@),
{
    let mut eff: Vec<Effect> = Vec::new();
    if let Some(i) = app.queue_selected {
        if key == Key::Char('d') || key == Key::Enter {
            let target = if app.play_mode == PlayMode::DefaultMode {
                Some(i)
            } else {
                get_mpv_idx(app, app.queue[i].video_id.as_str())
            };
            if let Some(m) = target {
                if key == Key::Char('d') {
                    eff.push(Effect::Run(Plan::Remove { idx: i, mpv_idx: m }));
                } else {
                    eff.push(Effect::Run(Plan::Send(MpvCommand::PlayPos(m))));
                }
            }
        }
    }
    eff
}

/// The video ids of a list of songs.
pub open spec fn queue_ids(songs: Seq<Song>) -> Seq<Seq<char>> {
    songs.map_values(|s: Song| s.video_id@)
}

/// Appending a song to the queue: a song whose video is queued already is
/// refused with a notice; otherwise mpv is asked to append it, and to
/// shuffle again when the shuffled queue held three songs.
pub open spec fn append_outcome(a: App, song: Song) -> Seq<Effect> {
    if queue_ids(a.queue@).contains(song.video_id@) {
        seq![Effect::Notify(Notice::AlreadyInQueue(song.title))]
    } else {
        seq![
            Effect::Run(
                Plan::Append {
                    song,
                    shuffle: a.play_mode == PlayMode::ShuffleMode && a.queue@.len() == 3,
                },
            ),
        ]
    }
}

/// Asks to append a song to the queue (see [`append_outcome`]).
pub fn append_song_to_queue(app: &App, song: Song) -> (res: Vec<Effect>)
    ensures
        res@ == append_outcome(*app, song),
{
    let vid = str_chars(song.video_id.as_str());
    let mut i: usize = 0;
    while i < app.queue.len()
        invariant
            i <= app.queue@.len(),
            vid@ == song.video_id@,
            forall|j: int| 0 <= j < i ==> app.queue@[j].video_id@ != song.video_id@,
        decreases app.queue@.len() - i,
    {
        if chars_eq(str_chars(app.queue[i].video_id.as_str()).as_slice(), vid.as_slice()) {
            assert(queue_ids(app.queue@)[i as int] == song.video_id@);
            let title = song.title;
            return vec![Effect::Notify(Notice::AlreadyInQueue(title))];
        }
        i += 1;
    }
    assert(!queue_ids(app.queue@).contains(song.video_id@)) by {
        if queue_ids(app.queue@).contains(song.video_id@) {
            let k = choose|k: int|
                0 <= k < queue_ids(app.queue@).len() && queue_ids(app.queue@)[k] == song.video_id@;
            assert(app.queue@[k].video_id@ == song.video_id@);
        }
    }
    let shuffle = app.play_mode == PlayMode::ShuffleMode && app.queue.len() == 3;
    vec![Effect::Run(Plan::Append { song, shuffle })]
}

/// Loading a list of songs into the player, to play from `start`: a
/// non-empty list is handed to mpv (shuffled again in shuffle mode); an
/// empty list clears the queue instead, and then the queue pane takes the
/// focus at once when `focus_queue`.
pub open spec fn load_outcome(
    old: App,
    songs: Vec<Song>,
    start: usize,
    playlist_id: Option<String>,
    focus_queue: bool,
    new: App,
    eff: Seq<Effect>,
) -> bool {
    if songs@.len() > 0 {
        new == old && eff == seq![
            Effect::Run(
                Plan::Load {
                    songs,
                    start,
                    playlist_id,
                    shuffle: old.play_mode == PlayMode::ShuffleMode,
                    focus_queue,
                },
            ),
        ]
    } else {
        &&& new == if focus_queue {
            App { focus_area: FocusArea::Queue, ..old }
        } else {
            old
        }
        &&& eff == seq![Effect::Run(Plan::Clear { report: false })]
    }
}

/// Asks to load a list of songs (see [`load_outcome`]).
pub fn load_list(
    app: &mut App,
    songs: Vec<Song>,
    start: usize,
    playlist_id: Option<String>,
    focus_queue: bool,
) -> (res: Vec<Effect>)
    ensures
        load_outcome(*old(app), songs, start, playlist_id, focus_queue, *final(app), res@),
{
    let mut eff: Vec<Effect> = Vec::new();
    if songs.len() > 0 {
        let shuffle = app.play_mode == PlayMode::ShuffleMode;
        eff.push(Effect::Run(Plan::Load { songs, start, playlist_id, shuffle, focus_queue }));
    } else {
        if focus_queue {
            app.focus_area = FocusArea::Queue;
        }
        eff.push(Effect::Run(Plan::Clear { report: false }));
    }
    eff
}

// ---------------------------------------------------------------------------
// The songs of the viewed list
// ---------------------------------------------------------------------------

/// The viewed list is the one the queue plays.
pub open spec fn viewing_is_playing(a: App) -> bool {
    a.viewing_list matches Some(list) && a.playing_playlist_id matches Some(p) && p@
        == list.playlist_id@
}

/// The keys of the songs pane. Enter plays the viewed list from the
/// selected song, unless the queue plays that list already. `a` appends
/// the selected song to the queue. `X` removes the selected song from the
/// viewed list when the user may edit it (unliking it, in the liked-songs
/// playlist `LM`). `x` opens the popup that saves the selected song to a
/// playlist.
pub open spec fn songs_event(old: App, key: Key, new: App, eff: Seq<Effect>) -> bool {
    if key == Key::Enter {
        match old.viewing_list {
            Some(list) => if viewing_is_playing(old) {
                new == old && eff == seq![Effect::Notify(Notice::ListAlreadyPlaying)]
            } else {
                match old.songs_selected {
                    Some(i) => exists|songs: Vec<Song>|
                        songs@ == old.songs@ && load_outcome(
                            old,
                            songs,
                            i,
                            Some(list.playlist_id),
                            true,
                            new,
                            eff,
                        ),
                    None => new == old && eff == Seq::<Effect>::empty(),
                }
            },
            None => new == old && eff == Seq::<Effect>::empty(),
        }
    } else if key == Key::Char('a') {
        new == old && eff == match old.songs_selected {
            Some(i) => append_outcome(old, old.songs@[i as int]),
            None => Seq::<Effect>::empty(),
        }
    } else if key == Key::Char('X') {
        match old.viewing_list {
            Some(list) => if list.is_custom {
                match old.songs_selected {
                    Some(i) => {
                        let song = old.songs@[i as int];
                        &&& new == App { songs: new.songs, ..old }
                        &&& new.songs@ == old.songs@.remove(i as int)
                        &&& eff == seq![
                            Effect::Api(
                                if list.playlist_id@ == "LM"@ {
                                    ApiCmd::UnlikeSong(song)
                                } else {
                                    ApiCmd::UnsaveSong { song, playlist_id: list.playlist_id }
                                },
                            ),
                        ]
                    },
                    None => new == old && eff == Seq::<Effect>::empty(),
                }
            } else {
                new == old && eff == seq![Effect::Notify(Notice::CannotEditList)]
            },
            None => new == old && eff == Seq::<Effect>::empty(),
        }
    } else if key == Key::Char('x') {
        eff == Seq::<Effect>::empty() && new == match old.songs_selected {
            Some(i) => if i < old.songs@.len() {
                App {
                    popup_state: PopupState::SaveSong { selected_save_song: old.songs@[i as int] },
                    cus_playlists_selected: Some(0),
                    ..old
                }
            } else {
                old
            },
            None => old,
        }
    } else {
        new == old && eff == Seq::<Effect>::empty()
    }
}

fn same_id(a: &String, b: &String) -> (res: bool)
    ensures
        res == (a@ == b@),
{
    chars_eq(str_chars(a.as_str()).as_slice(), str_chars(b.as_str()).as_slice())
}

/// The songs pane reads the selected song directly for `a`, and for `X` on
/// a list of the user's own: there the selection must point at a song.
pub open spec fn songs_keys_ok(a: App, key: Key) -> bool {
    (key == Key::Char('a') || (key == Key::Char('X') && (a.viewing_list matches Some(l)
        && l.is_custom))) ==> sel_ok(a.songs_selected, a.songs@.len())
}

/// Reacts to the keys of the songs pane (see [`songs_event`]).
pub fn handle_songs_event(app: &mut App, key: Key) -> (res: Vec<Effect>)
    requires
        songs_keys_ok(*old(app), key),
    ensures
        songs_event(*old(app), key, *final(app), res@),
{
    let mut eff: Vec<Effect> = Vec::new();
    if key == Key::Enter {
        let list = match &app.viewing_list {
            Some(l) => copy_playlist(l),
            None => {
                return eff;
            },
        };
        let dup = match &app.playing_playlist_id {
            Some(p) => same_id(p, &list.playlist_id),
            None => false,
        };
        if dup {
            eff.push(Effect::Notify(Notice::ListAlreadyPlaying));
            return eff;
        }
        if let Some(i) = app.songs_selected {
            let songs = copy_songs(&app.songs);
            let ghost s = songs;
            let e = load_list(app, songs, i, Some(list.playlist_id), true);
            assert(load_outcome(*old(app), s, i, Some(list.playlist_id), true, *app, e@));
            return e;
        }
    } else if key == Key::Char('a') {
        if let Some(i) = app.songs_selected {
            let song = copy_song(&app.songs[i]);
            return append_song_to_queue(app, song);
        }
    } else if key == Key::Char('X') {
        let list = match &app.viewing_list {
            Some(l) => copy_playlist(l),
            None => {
                return eff;
            },
        };
        if list.is_custom {
            if let Some(i) = app.songs_selected {
                let song = copy_song(&app.songs[i]);
                if is_liked_songs(list.playlist_id.as_str()) {
                    eff.push(Effect::Api(ApiCmd::UnlikeSong(song)));
                } else {
                    eff.push(Effect::Api(ApiCmd::UnsaveSong { song, playlist_id: list.playlist_id }));
                }
                app.songs.remove(i);
            }
        } else {
            eff.push(Effect::Notify(Notice::CannotEditList));
        }
    } else if key == Key::Char('x') {
        if let Some(i) = app.songs_selected {
            if i < app.songs.len() {
                let song = copy_song(&app.songs[i]);
                app.popup_state = PopupState::SaveSong { selected_save_song: song };
                app.cus_playlists_selected = Some(0);
            }
        }
    }
    eff
}

// ---------------------------------------------------------------------------
// The library page
// ---------------------------------------------------------------------------

/// The first position in `s` of the list with id `id`.
pub open spec fn list_position_from(s: Seq<Playlist>, id: Seq<char>, i: int) -> Option<int>
    decreases s.len() - i,
{
    if i < 0 || i >= s.len() {
        None
    } else if s[i].playlist_id@ == id {
        Some(i)
    } else {
        list_position_from(s, id, i + 1)
    }
}

pub open spec fn list_position(s: Seq<Playlist>, id: Seq<char>) -> Option<int> {
    list_position_from(s, id, 0)
}

fn list_position_exec(s: &Vec<Playlist>, id: &String) -> (res: Option<usize>)
    ensures
        match (res, list_position(s@, id@)) {
            (Some(r), Some(e)) => r == e,
            (None, None) => true,
            _ => false,
        },
{
    let mut i: usize = 0;
    while i < s.len()
        invariant
            i <= s@.len(),
            list_position(s@, id@) == list_position_from(s@, id@, i as int),
        decreases s@.len() - i,
    {
        if same_id(&s[i].playlist_id, id) {
            return Some(i);
        }
        i += 1;
    }
    None
}

/// `s` with the first list of id `id` marked saved or not.
pub open spec fn with_saved_flag(s: Seq<Playlist>, id: Seq<char>, saved: bool) -> Seq<Playlist> {
    match list_position(s, id) {
        Some(p) => s.update(p, Playlist { is_saved: saved, ..s[p] }),
        None => s,
    }
}

/// `s` without the first list of id `id`.
pub open spec fn without_list(s: Seq<Playlist>, id: Seq<char>) -> Seq<Playlist> {
    match list_position(s, id) {
        Some(p) => s.remove(p),
        None => s,
    }
}

proof fn lemma_list_position_in(s: Seq<Playlist>, id: Seq<char>, i: int)
    ensures
        list_position_from(s, id, i) matches Some(p) ==> 0 <= p < s.len(),
    decreases s.len() - i,
{
    if 0 <= i < s.len() && s[i].playlist_id@ != id {
        lemma_list_position_in(s, id, i + 1);
    }
}

fn set_saved_flag(s: &mut Vec<Playlist>, id: &String, saved: bool)
    ensures
        final(s)@ == with_saved_flag(old(s)@, id@, saved),
{
    proof {
        lemma_list_position_in(old(s)@, id@, 0);
    }
    if let Some(p) = list_position_exec(s, id) {
        let mut a = copy_playlist(&s[p]);
        a.is_saved = saved;
        s.set(p, a);
    }
}

fn remove_list(s: &mut Vec<Playlist>, id: &String)
    ensures
        final(s)@ == without_list(old(s)@, id@),
{
    proof {
        lemma_list_position_in(old(s)@, id@, 0);
    }
    if let Some(p) = list_position_exec(s, id) {
        s.remove(p);
    }
}

/// The album or playlist selected in the focused library pane.
pub open spec fn library_selection(a: App) -> Option<Playlist> {
    if a.focus_area == FocusArea::Albums {
        match a.albums_selected {
            Some(i) => Some(a.albums@[i as int]),
            None => None,
        }
    } else if a.focus_area == FocusArea::Playlists {
        match a.playlists_selected {
            Some(i) => Some(a.playlists@[i as int]),
            None => None,
        }
    } else {
        None
    }
}

/// The playlists that cannot be removed: liked songs (`LM`) and episodes
/// for later (`SE`).
pub open spec fn is_fixed_playlist(id: Seq<char>) -> bool {
    id == "LM"@ || id == "SE"@
}

/// The keys of the library page. `1` and `2` focus the albums and the
/// playlists. `l` views the selected album or playlist, Enter plays it.
/// `x` removes the selected album (also marking it unsaved among the search
/// results) or playlist from the library — but never the liked songs or the
/// episodes for later. `a` on the playlists opens the form that creates one.
pub open spec fn library_keys(old: App, key: Key, new: App, eff: Seq<Effect>) -> bool {
    if key == Key::Char('1') {
        new == App { focus_area: FocusArea::Albums, ..old } && eff == Seq::<Effect>::empty()
    } else if key == Key::Char('2') {
        new == App { focus_area: FocusArea::Playlists, ..old } && eff == Seq::<Effect>::empty()
    } else if key == Key::Char('l') {
        match library_selection(old) {
            Some(list) => new == App {
                focus_area: FocusArea::Songs,
                api_loading_kind: Some(ApiLoadingKind::GetSongsToView),
                ..old
            } && eff == seq![Effect::Api(ApiCmd::GetSongsToView(list))],
            None => new == old && eff == Seq::<Effect>::empty(),
        }
    } else if key == Key::Enter {
        match library_selection(old) {
            Some(list) => new == App {
                focus_area: FocusArea::Queue,
                api_loading_kind: Some(ApiLoadingKind::GetSongsToPlay),
                ..old
            } && eff == seq![Effect::Api(ApiCmd::GetSongsToPlay(list))],
            None => new == old && eff == Seq::<Effect>::empty(),
        }
    } else if key == Key::Char('x') && old.focus_area == FocusArea::Albums && old.albums_selected
        is Some && old.albums_selected->0 < old.albums@.len() {
        let album = old.albums@[old.albums_selected->0 as int];
        &&& new == App { albums: new.albums, search_albums: new.search_albums, ..old }
        &&& new.albums@ == old.albums@.remove(old.albums_selected->0 as int)
        &&& new.search_albums@ == with_saved_flag(
            old.search_albums@,
            album.playlist_id@,
            false,
        )
        &&& eff == seq![Effect::Api(ApiCmd::UnsaveAlbum(album))]
    } else if key == Key::Char('x') && old.focus_area == FocusArea::Playlists
        && old.playlists_selected is Some && old.playlists_selected->0 < old.playlists@.len() {
        let i = old.playlists_selected->0 as int;
        let p = old.playlists@[i];
        if is_fixed_playlist(p.playlist_id@) {
            new == old && eff == seq![Effect::Notify(Notice::CannotRemovePlaylist)]
        } else {
            &&& new == App { playlists: new.playlists, ..old }
            &&& new.playlists@ == old.playlists@.remove(i)
            &&& eff == seq![
                Effect::Api(
                    if p.is_custom {
                        ApiCmd::UnsaveCusPlaylist(p)
                    } else {
                        ApiCmd::UnsaveAlbum(p)
                    },
                ),
            ]
        }
    } else if key == Key::Char('a') && old.focus_area == FocusArea::Playlists {
        &&& eff == Seq::<Effect>::empty()
        &&& new == App { popup_state: new.popup_state, ..old }
        &&& new.popup_state matches PopupState::CreatePlaylist {
            title,
            description,
            privacy,
            focused_field,
        }
        &&& title@.len() == 0 && description@.len() == 0
        &&& privacy == PlayListPrivacy::Private && focused_field == CreatePlaylistFocus::Title
    } else {
        new == old && eff == Seq::<Effect>::empty()
    }
}

fn library_selection_of(app: &App) -> (res: Option<Playlist>)
    requires
        app.focus_area == FocusArea::Albums ==> sel_ok(app.albums_selected, app.albums@.len()),
        app.focus_area == FocusArea::Playlists ==> sel_ok(app.playlists_selected, app.playlists@.len()),
    ensures
        res == library_selection(*app),
{
    if app.focus_area == FocusArea::Albums {
        match app.albums_selected {
            Some(i) => Some(copy_playlist(&app.albums[i])),
            None => None,
        }
    } else if app.focus_area == FocusArea::Playlists {
        match app.playlists_selected {
            Some(i) => Some(copy_playlist(&app.playlists[i])),
            None => None,
        }
    } else {
        None
    }
}

fn is_fixed_playlist_id(id: &str) -> (res: bool)
    ensures
        res == is_fixed_playlist(id@),
{
    let c = str_chars(id);
    chars_eq(c.as_slice(), str_chars("LM").as_slice()) || chars_eq(
        c.as_slice(),
        str_chars("SE").as_slice(),
    )
}

/// The library page reads the selected album or playlist directly for `l`
/// and `Enter`: there the selection of the focused list must point at an
/// entry.
pub open spec fn library_keys_ok(a: App, key: Key) -> bool {
    (key == Key::Char('l') || key == Key::Enter) ==> {
        &&& a.focus_area == FocusArea::Albums ==> sel_ok(a.albums_selected, a.albums@.len())
        &&& a.focus_area == FocusArea::Playlists ==> sel_ok(a.playlists_selected, a.playlists@.len())
    }
}

/// Reacts to the keys of the library page (see [`library_keys`]).
pub fn handle_library_keys(app: &mut App, key: Key) -> (res: Vec<Effect>)
    requires
        library_keys_ok(*old(app), key),
    ensures
        library_keys(*old(app), key, *final(app), res@),
{
    let mut eff: Vec<Effect> = Vec::new();
    if key == Key::Char('1') {
        app.focus_area = FocusArea::Albums;
    } else if key == Key::Char('2') {
        app.focus_area = FocusArea::Playlists;
    } else if key == Key::Char('l') {
        if let Some(list) = library_selection_of(app) {
            eff.push(Effect::Api(ApiCmd::GetSongsToView(list)));
            app.focus_area = FocusArea::Songs;
            app.api_loading_kind = Some(ApiLoadingKind::GetSongsToView);
        }
    } else if key == Key::Enter {
        if let Some(list) = library_selection_of(app) {
            eff.push(Effect::Api(ApiCmd::GetSongsToPlay(list)));
            app.api_loading_kind = Some(ApiLoadingKind::GetSongsToPlay);
            app.focus_area = FocusArea::Queue;
        }
    } else if key == Key::Char('x') && app.focus_area == FocusArea::Albums
        && app.albums_selected.is_some() && app.albums_selected.unwrap() < app.albums.len() {
        if let Some(i) = app.albums_selected {
            let album = copy_playlist(&app.albums[i]);
            set_saved_flag(&mut app.search_albums, &album.playlist_id, false);
            app.albums.remove(i);
            eff.push(Effect::Api(ApiCmd::UnsaveAlbum(album)));
        }
    } else if key == Key::Char('x') && app.focus_area == FocusArea::Playlists
        && app.playlists_selected.is_some() && app.playlists_selected.unwrap() < app.playlists.len() {
        if let Some(i) = app.playlists_selected {
            let p = copy_playlist(&app.playlists[i]);
            if is_fixed_playlist_id(p.playlist_id.as_str()) {
                eff.push(Effect::Notify(Notice::CannotRemovePlaylist));
            } else {
                let custom = p.is_custom;
                if custom {
                    eff.push(Effect::Api(ApiCmd::UnsaveCusPlaylist(p)));
                } else {
                    eff.push(Effect::Api(ApiCmd::UnsaveAlbum(p)));
                }
                app.playlists.remove(i);
            }
        }
    } else if key == Key::Char('a') && app.focus_area == FocusArea::Playlists {
        app.popup_state = PopupState::CreatePlaylist {
            title: String::new(),
            description: String::new(),
            privacy: PlayListPrivacy::Private,
            focused_field: CreatePlaylistFocus::Title,
        };
    }
    eff
}

// ---------------------------------------------------------------------------
// The search page
// ---------------------------------------------------------------------------

/// The keys of the search page.
///
/// While typing into the search box, characters extend the query,
/// Backspace deletes, Enter stops typing and searches, Esc stops typing.
///
/// Otherwise `1` and `2` focus the album and song results and `s` starts
/// typing. `x` on an album result saves it to the library, or removes it
/// from the library when it is saved already; on a song result it opens the
/// popup that saves the song to a playlist. `a` appends the selected song
/// result to the queue. Enter plays the selected album, or the radio of the
/// selected song, and moves the focus to the queue. `l` views the selected
/// album.
pub open spec fn search_keys(old: App, key: Key, new: App, eff: Seq<Effect>) -> bool {
    if old.is_insert {
        if key is Char {
            &&& eff == Seq::<Effect>::empty()
            &&& new == App { search_query: new.search_query, ..old }
            &&& new.search_query@ == old.search_query@.push(key->0)
        } else if key == Key::Backspace {
            &&& eff == Seq::<Effect>::empty()
            &&& new == App { search_query: new.search_query, ..old }
            &&& new.search_query@ == backspaced(old.search_query@)
        } else if key == Key::Enter {
            new == App {
                is_insert: false,
                api_loading_kind: Some(ApiLoadingKind::Search),
                ..old
            } && eff == seq![Effect::Api(ApiCmd::Search(old.search_query))]
        } else if key == Key::Esc {
            new == App { is_insert: false, ..old } && eff == Seq::<Effect>::empty()
        } else {
            new == old && eff == Seq::<Effect>::empty()
        }
    } else if key == Key::Char('1') {
        new == App { focus_area: FocusArea::SearchAlbums, ..old } && eff == Seq::<Effect>::empty()
    } else if key == Key::Char('2') {
        new == App { focus_area: FocusArea::SearchSongs, ..old } && eff == Seq::<Effect>::empty()
    } else if key == Key::Char('s') {
        new == App { is_insert: true, ..old } && eff == Seq::<Effect>::empty()
    } else if key == Key::Char('x') && old.focus_area == FocusArea::SearchAlbums
        && old.search_albums_selected is Some && old.search_albums_selected->0
        < old.search_albums@.len() {
        let i = old.search_albums_selected->0 as int;
        let a = old.search_albums@[i];
        if !a.is_saved {
            let saved = Playlist { is_saved: true, ..a };
            &&& new == App { search_albums: new.search_albums, ..old }
            &&& new.search_albums@ == old.search_albums@.update(i, saved)
            &&& eff == seq![Effect::Api(ApiCmd::SaveAlbum(saved))]
        } else {
            &&& new == App { search_albums: new.search_albums, albums: new.albums, ..old }
            &&& new.search_albums@ == old.search_albums@.update(i, Playlist { is_saved: false, ..a })
            &&& new.albums@ == without_list(old.albums@, a.playlist_id@)
            &&& eff == seq![Effect::Api(ApiCmd::UnsaveAlbum(a))]
        }
    } else if key == Key::Char('x') && old.focus_area == FocusArea::SearchSongs {
        eff == Seq::<Effect>::empty() && new == match old.search_songs_selected {
            Some(i) => if i < old.search_songs@.len() {
                App {
                    popup_state: PopupState::SaveSong {
                        selected_save_song: old.search_songs@[i as int],
                    },
                    cus_playlists_selected: Some(0),
                    ..old
                }
            } else {
                old
            },
            None => old,
        }
    } else if key == Key::Char('a') && old.focus_area == FocusArea::SearchSongs {
        new == old && eff == match old.search_songs_selected {
            Some(i) => append_outcome(old, old.search_songs@[i as int]),
            None => Seq::<Effect>::empty(),
        }
    } else if key == Key::Enter {
        if old.focus_area == FocusArea::SearchAlbums && old.search_albums_selected is Some {
            new == App {
                api_loading_kind: Some(ApiLoadingKind::GetSongsToPlay),
                focus_area: FocusArea::Queue,
                ..old
            } && eff == seq![
                Effect::Api(
                    ApiCmd::GetSongsToPlay(old.search_albums@[old.search_albums_selected->0 as int]),
                ),
            ]
        } else if old.focus_area == FocusArea::SearchSongs && old.search_songs_selected is Some {
            new == App {
                api_loading_kind: Some(ApiLoadingKind::GetSongsToPlay),
                focus_area: FocusArea::Queue,
                ..old
            } && eff == seq![
                Effect::Api(
                    ApiCmd::GetRelatedSongsToPlay(
                        old.search_songs@[old.search_songs_selected->0 as int],
                    ),
                ),
            ]
        } else {
            new == App { focus_area: FocusArea::Queue, ..old } && eff == Seq::<Effect>::empty()
        }
    } else if key == Key::Char('l') && old.focus_area == FocusArea::SearchAlbums
        && old.search_albums_selected is Some {
        new == App {
            api_loading_kind: Some(ApiLoadingKind::GetSongsToView),
            focus_area: FocusArea::Songs,
            ..old
        } && eff == seq![
            Effect::Api(
                ApiCmd::GetSongsToView(old.search_albums@[old.search_albums_selected->0 as int]),
            ),
        ]
    } else {
        new == old && eff == Seq::<Effect>::empty()
    }
}

/// Outside typing, the search page reads the selected result directly for
/// `a` on the songs, and for `Enter` and `l` on the focused results: there
/// that selection must point at a result.
pub open spec fn search_keys_ok(a: App, key: Key) -> bool {
    !a.is_insert ==> {
        &&& a.focus_area == FocusArea::SearchSongs && (key == Key::Char('a') || key == Key::Enter)
            ==> sel_ok(a.search_songs_selected, a.search_songs@.len())
        &&& a.focus_area == FocusArea::SearchAlbums && (key == Key::Char('l') || key == Key::Enter)
            ==> sel_ok(a.search_albums_selected, a.search_albums@.len())
    }
}

/// Reacts to the keys of the search page (see [`search_keys`]).
pub fn handle_search_keys(app: &mut App, key: Key) -> (res: Vec<Effect>)
    requires
        search_keys_ok(*old(app), key),
    ensures
        search_keys(*old(app), key, *final(app), res@),
{
    let mut eff: Vec<Effect> = Vec::new();
    if app.is_insert {
        match key {
            Key::Char(c) => {
                let mut q = String::new();
                std::mem::swap(&mut q, &mut app.search_query);
                app.search_query = typed(q, c);
            },
            Key::Backspace => {
                let mut q = String::new();
                std::mem::swap(&mut q, &mut app.search_query);
                app.search_query = erased(q);
            },
            Key::Enter => {
                app.is_insert = false;
                eff.push(Effect::Api(ApiCmd::Search(app.search_query.clone())));
                app.api_loading_kind = Some(ApiLoadingKind::Search);
            },
            Key::Esc => {
                app.is_insert = false;
            },
            _ => {},
        }
        return eff;
    }
    if key == Key::Char('1') {
        app.focus_area = FocusArea::SearchAlbums;
    } else if key == Key::Char('2') {
        app.focus_area = FocusArea::SearchSongs;
    } else if key == Key::Char('s') {
        app.is_insert = true;
    } else if key == Key::Char('x') && app.focus_area == FocusArea::SearchAlbums
        && app.search_albums_selected.is_some() && app.search_albums_selected.unwrap()
        < app.search_albums.len() {
        if let Some(i) = app.search_albums_selected {
            let mut a = copy_playlist(&app.search_albums[i]);
            if !a.is_saved {
                a.is_saved = true;
                app.search_albums.set(i, copy_playlist(&a));
                eff.push(Effect::Api(ApiCmd::SaveAlbum(a)));
            } else {
                let mut unsaved = copy_playlist(&a);
                unsaved.is_saved = false;
                app.search_albums.set(i, unsaved);
                remove_list(&mut app.albums, &a.playlist_id);
                eff.push(Effect::Api(ApiCmd::UnsaveAlbum(a)));
            }
        }
    } else if key == Key::Char('x') && app.focus_area == FocusArea::SearchSongs {
        if let Some(i) = app.search_songs_selected {
            if i < app.search_songs.len() {
                let song = copy_song(&app.search_songs[i]);
                app.popup_state = PopupState::SaveSong { selected_save_song: song };
                app.cus_playlists_selected = Some(0);
            }
        }
    } else if key == Key::Char('a') && app.focus_area == FocusArea::SearchSongs {
        if let Some(i) = app.search_songs_selected {
            let song = copy_song(&app.search_songs[i]);
            return append_song_to_queue(app, song);
        }
    } else if key == Key::Enter {
        if app.focus_area == FocusArea::SearchAlbums && app.search_albums_selected.is_some() {
            if let Some(i) = app.search_albums_selected {
                eff.push(Effect::Api(ApiCmd::GetSongsToPlay(copy_playlist(&app.search_albums[i]))));
                app.api_loading_kind = Some(ApiLoadingKind::GetSongsToPlay);
            }
        } else if app.focus_area == FocusArea::SearchSongs && app.search_songs_selected.is_some() {
            if let Some(i) = app.search_songs_selected {
                eff.push(
                    Effect::Api(ApiCmd::GetRelatedSongsToPlay(copy_song(&app.search_songs[i]))),
                );
                app.api_loading_kind = Some(ApiLoadingKind::GetSongsToPlay);
            }
        }
        app.focus_area = FocusArea::Queue;
    } else if key == Key::Char('l') && app.focus_area == FocusArea::SearchAlbums
        && app.search_albums_selected.is_some() {
        if let Some(i) = app.search_albums_selected {
            eff.push(Effect::Api(ApiCmd::GetSongsToView(copy_playlist(&app.search_albums[i]))));
            app.api_loading_kind = Some(ApiLoadingKind::GetSongsToView);
            app.focus_area = FocusArea::Songs;
        }
    }
    eff
}

// ---------------------------------------------------------------------------
// Keys
// ---------------------------------------------------------------------------

/// The keys that work on every page: `q` quits (shutting the player down
/// when the queue is empty, otherwise leaving it playing), `Q` quits and
/// shuts the player down, `3` focuses the queue (selecting its first song
/// when nothing is selected), `4` focuses the songs pane, `c` clears the
/// queue.
pub open spec fn global_keys(old: App, key: Key, new: App, eff: Seq<Effect>) -> bool {
    if key == Key::Char('q') {
        new == App { is_exit: true, ..old } && eff == if old.queue@.len() == 0 {
            seq![Effect::Shutdown]
        } else {
            Seq::<Effect>::empty()
        }
    } else if key == Key::Char('Q') {
        new == App { is_exit: true, ..old } && eff == seq![Effect::Shutdown]
    } else if key == Key::Char('3') {
        eff == Seq::<Effect>::empty() && new == App {
            focus_area: FocusArea::Queue,
            queue_selected: if old.queue_selected is None && old.queue@.len() > 0 {
                Some(0)
            } else {
                old.queue_selected
            },
            ..old
        }
    } else if key == Key::Char('4') {
        new == App { focus_area: FocusArea::Songs, ..old } && eff == Seq::<Effect>::empty()
    } else if key == Key::Char('c') {
        new == old && eff == seq![Effect::Run(Plan::Clear { report: true })]
    } else {
        new == old && eff == Seq::<Effect>::empty()
    }
}

/// Reacts to the keys of every page (see [`global_keys`]).
pub fn handle_global_keys(app: &mut App, key: Key) -> (res: Vec<Effect>)
    ensures
        global_keys(*old(app), key, *final(app), res@),
{
    let mut eff: Vec<Effect> = Vec::new();
    if key == Key::Char('q') {
        if app.queue.len() == 0 {
            eff.push(Effect::Shutdown);
        }
        app.is_exit = true;
    } else if key == Key::Char('Q') {
        eff.push(Effect::Shutdown);
        app.is_exit = true;
    } else if key == Key::Char('3') {
        app.focus_area = FocusArea::Queue;
        if app.queue_selected.is_none() && app.queue.len() > 0 {
            app.queue_selected = Some(0);
        }
    } else if key == Key::Char('4') {
        app.focus_area = FocusArea::Songs;
    } else if key == Key::Char('c') {
        eff.push(Effect::Run(Plan::Clear { report: true }));
    }
    eff
}

/// The keys of the focused pane: the queue's or the songs'.
pub open spec fn focus_keys(old: App, key: Key, new: App, eff: Seq<Effect>) -> bool {
    match old.focus_area {
        FocusArea::Queue => queue_event(old, key, new, eff),
        FocusArea::Songs => songs_event(old, key, new, eff),
        _ => new == old && eff == Seq::<Effect>::empty(),
    }
}

/// The keys of the page shown.
pub open spec fn page_keys(old: App, key: Key, new: App, eff: Seq<Effect>) -> bool {
    match old.page {
        AppPage::Library => library_keys(old, key, new, eff),
        AppPage::Search => search_keys(old, key, new, eff),
    }
}

/// A key press. While a popup is open only the popup sees it. Otherwise
/// Tab first switches the page; then, unless typing into the search box,
/// the keys of every page, of the focused pane and of the player apply in
/// that order; last the keys of the page shown. The effects are those of
/// each step, in order.
pub open spec fn key_event(old: App, key: Key, seek_seconds: i64, new: App, eff: Seq<Effect>) -> bool {
    if old.popup_active() {
        popup_event(old, key, new, eff)
    } else {
        let a1 = if key == Key::Tab {
            after_page_event(old)
        } else {
            old
        };
        if a1.is_insert {
            page_keys(a1, key, new, eff)
        } else {
            exists|
                a2: App,
                a3: App,
                a4: App,
                e1: Seq<Effect>,
                e2: Seq<Effect>,
                e3: Seq<Effect>,
                e4: Seq<Effect>,
            |
                {
                    &&& global_keys(a1, key, a2, e1)
                    &&& focus_keys(a2, key, a3, e2)
                    &&& player_event(a3, key, seek_seconds, a4, e3)
                    &&& page_keys(a4, key, new, e4)
                    &&& eff == e1 + e2 + e3 + e4
                }
        }
    }
}

/// The key reads a selected entry directly only where the selection points
/// at an entry (see [`queue_keys_ok`], [`songs_keys_ok`],
/// [`library_keys_ok`] and [`search_keys_ok`]); entries reached through a
/// checked lookup need nothing.
pub open spec fn key_selection_ok(a: App, key: Key) -> bool {
    !a.popup_active() && key != Key::Tab ==> {
        &&& a.focus_area == FocusArea::Queue && !a.is_insert ==> queue_keys_ok(a, key)
        &&& a.focus_area == FocusArea::Songs && !a.is_insert ==> songs_keys_ok(a, key)
        &&& a.page == AppPage::Library ==> library_keys_ok(a, key)
        &&& a.page == AppPage::Search ==> search_keys_ok(a, key)
    }
}

/// Whether a key may be handled on this state (see [`key_selection_ok`]).
pub fn key_selection_holds(app: &App, key: Key) -> (res: bool)
    ensures
        res == key_selection_ok(*app, key),
{
    if app.is_popup_active() || key == Key::Tab {
        return true;
    }
    let queue_ok = !(app.focus_area == FocusArea::Queue && !app.is_insert
        && (key == Key::Char('d') || key == Key::Enter) && app.play_mode != PlayMode::DefaultMode)
        || sel_within(app.queue_selected, app.queue.len());
    let custom_view = match &app.viewing_list {
        Some(l) => l.is_custom,
        None => false,
    };
    let songs_ok = !(app.focus_area == FocusArea::Songs && !app.is_insert && (key == Key::Char('a')
        || (key == Key::Char('X') && custom_view))) || sel_within(app.songs_selected, app.songs.len());
    let listing = key == Key::Char('l') || key == Key::Enter;
    let library_ok = !(app.page == AppPage::Library && listing) || ((app.focus_area
        != FocusArea::Albums || sel_within(app.albums_selected, app.albums.len())) && (
    app.focus_area != FocusArea::Playlists || sel_within(app.playlists_selected, app.playlists.len())));
    let search_ok = !(app.page == AppPage::Search && !app.is_insert) || ((!(app.focus_area
        == FocusArea::SearchSongs && (key == Key::Char('a') || key == Key::Enter)) || sel_within(
        app.search_songs_selected,
        app.search_songs.len(),
    )) && (!(app.focus_area == FocusArea::SearchAlbums && listing) || sel_within(
        app.search_albums_selected,
        app.search_albums.len(),
    )));
    queue_ok && songs_ok && library_ok && search_ok
}

/// Reacts to a key press (see [`key_event`]). Moving a list selection with
/// the arrow keys is left to the list itself (see [`list_to_navigate`]).
pub fn handle_key_events(app: &mut App, key: Key, seek_seconds: i64) -> (res: Vec<Effect>)
    requires
        key_selection_ok(*old(app), key),
    ensures
        key_event(*old(app), key, seek_seconds, *final(app), res@),
{
    if app.is_popup_active() {
        return handle_popup_event(app, key);
    }
    if key == Key::Tab {
        handle_page_event(app);
    }
    let ghost a1 = *app;
    if app.is_insert {
        return match app.page {
            AppPage::Library => handle_library_keys(app, key),
            AppPage::Search => handle_search_keys(app, key),
        };
    }
    let mut eff = handle_global_keys(app, key);
    let ghost a2 = *app;
    let ghost e1 = eff@;
    let mut e = match app.focus_area {
        FocusArea::Queue => handle_queue_event(app, key),
        FocusArea::Songs => handle_songs_event(app, key),
        _ => Vec::new(),
    };
    let ghost a3 = *app;
    let ghost e2 = e@;
    eff.append(&mut e);
    let mut e = handle_player_event(app, key, seek_seconds);
    let ghost a4 = *app;
    let ghost e3 = e@;
    eff.append(&mut e);
    let mut e = match app.page {
        AppPage::Library => handle_library_keys(app, key),
        AppPage::Search => handle_search_keys(app, key),
    };
    let ghost e4 = e@;
    eff.append(&mut e);
    assert(global_keys(a1, key, a2, e1));
    assert(focus_keys(a2, key, a3, e2));
    assert(player_event(a3, key, seek_seconds, a4, e3));
    assert(page_keys(a4, key, *app, e4));
    assert(eff@ =~= e1 + e2 + e3 + e4);
    eff
}

// ---------------------------------------------------------------------------
// Finishing plans
// ---------------------------------------------------------------------------

/// The plan can be finished on this state: a removal names a queue entry.
pub open spec fn plan_fits(a: App, plan: Plan) -> bool {
    match plan {
        Plan::Remove { idx, .. } => idx < a.queue@.len(),
        _ => true,
    }
}

/// Whether the plan can be finished on this state (see [`plan_fits`]).
pub fn check_plan_fits(app: &App, plan: &Plan) -> (res: bool)
    ensures
        res == plan_fits(*app, *plan),
{
    match plan {
        Plan::Remove { idx, .. } => *idx < app.queue.len(),
        _ => true,
    }
}

/// The entry being played after the queue entry `idx` is removed: entries
/// after it move up by one; if it was the one playing, nothing is.
pub open spec fn playing_after_removal(playing: Option<usize>, idx: usize) -> Option<usize> {
    match playing {
        Some(p) => if p > idx {
            Some((p - 1) as usize)
        } else if p == idx {
            None
        } else {
            Some(p)
        },
        None => None,
    }
}

/// What a plan does to the state once its commands ran; `done` tells
/// whether all of them went through (a failure has been logged, and then
/// nothing changes). Clearing empties the queue and stops playback.
/// Removing takes the entry out of the queue, keeping the playing entry
/// pointed at (see [`playing_after_removal`]) and stopping playback when the
/// queue runs empty. Appending puts the song at the end of the queue.
/// Loading makes the songs the queue, selected at the start and not yet
/// reported playing. A new play mode is saved.
pub open spec fn plan_finished(old: App, plan: Plan, done: bool, new: App, eff: Seq<Effect>) -> bool {
    if !done {
        new == old && eff == Seq::<Effect>::empty()
    } else {
        match plan {
            Plan::Clear { report } => {
                &&& new == App {
                    status: PlayerStatus::Idle,
                    playing_song: None,
                    queue: new.queue,
                    playing_playlist_id: None,
                    ..old
                }
                &&& new.queue@.len() == 0
                &&& eff == seq![Effect::Clock(Clock::Stop)] + if report {
                    seq![Effect::Notify(Notice::ClearedQueue)]
                } else {
                    Seq::<Effect>::empty()
                }
            },
            Plan::Remove { idx, .. } => {
                let q = old.queue@.remove(idx as int);
                &&& new.queue@ == q
                &&& new == App {
                    queue: new.queue,
                    playing_song: playing_after_removal(old.playing_song, idx),
                    status: if q.len() == 0 {
                        PlayerStatus::Idle
                    } else {
                        old.status
                    },
                    playing_playlist_id: if q.len() == 0 {
                        None
                    } else {
                        old.playing_playlist_id
                    },
                    ..old
                }
                &&& eff == if q.len() == 0 {
                    seq![Effect::Clock(Clock::Stop), Effect::Notify(Notice::RemovedFromQueue)]
                } else {
                    seq![Effect::Notify(Notice::RemovedFromQueue)]
                }
            },
            Plan::Append { song, .. } => {
                &&& new == App { queue: new.queue, ..old }
                &&& new.queue@ == old.queue@.push(song)
                &&& eff == seq![Effect::Notify(Notice::AppendedToQueue(song.title))]
            },
            Plan::Load { songs, start, playlist_id, focus_queue, .. } => {
                &&& new == App {
                    queue: new.queue,
                    queue_selected: Some(start),
                    playing_playlist_id: playlist_id,
                    playing_song: None,
                    focus_area: if focus_queue {
                        FocusArea::Queue
                    } else {
                        old.focus_area
                    },
                    ..old
                }
                &&& new.queue@ == songs@
                &&& eff == Seq::<Effect>::empty()
            },
            Plan::Send(_) => new == old && eff == Seq::<Effect>::empty(),
            Plan::SaveMode(mode) => new == old && eff == seq![Effect::SavePlayMode(mode)],
        }
    }
}

/// Applies a plan once its commands ran (see [`plan_finished`]).
pub fn finish_plan(app: &mut App, plan: Plan, done: bool) -> (res: Vec<Effect>)
    requires
        plan_fits(*old(app), plan),
    ensures
        plan_finished(*old(app), plan, done, *final(app), res@),
{
    let mut eff: Vec<Effect> = Vec::new();
    if !done {
        return eff;
    }
    match plan {
        Plan::Clear { report } => {
            app.status = PlayerStatus::Idle;
            app.playing_song = None;
            app.queue = Vec::new();
            app.playing_playlist_id = None;
            eff.push(Effect::Clock(Clock::Stop));
            if report {
                eff.push(Effect::Notify(Notice::ClearedQueue));
            }
            assert(eff@ =~= seq![Effect::Clock(Clock::Stop)] + if report {
                seq![Effect::Notify(Notice::ClearedQueue)]
            } else {
                Seq::<Effect>::empty()
            });
        },
        Plan::Remove { idx, .. } => {
            if let Some(p) = app.playing_song {
                if p > idx {
                    app.playing_song = Some(p - 1);
                } else if p == idx {
                    app.playing_song = None;
                }
            }
            app.queue.remove(idx);
            if app.queue.len() == 0 {
                app.status = PlayerStatus::Idle;
                app.playing_playlist_id = None;
                eff.push(Effect::Clock(Clock::Stop));
            }
            eff.push(Effect::Notify(Notice::RemovedFromQueue));
            assert(app.queue@ =~= old(app).queue@.remove(idx as int));
            assert(eff@ =~= if app.queue@.len() == 0 {
                seq![Effect::Clock(Clock::Stop), Effect::Notify(Notice::RemovedFromQueue)]
            } else {
                seq![Effect::Notify(Notice::RemovedFromQueue)]
            });
        },
        Plan::Append { song, .. } => {
            let title = song.title.clone();
            app.queue.push(song);
            eff.push(Effect::Notify(Notice::AppendedToQueue(title)));
        },
        Plan::Load { songs, start, playlist_id, focus_queue, .. } => {
            app.queue = songs;
            app.queue_selected = Some(start);
            app.playing_playlist_id = playlist_id;
            app.playing_song = None;
            if focus_queue {
                app.focus_area = FocusArea::Queue;
            }
        },
        Plan::Send(_) => {},
        Plan::SaveMode(mode) => {
            eff.push(Effect::SavePlayMode(mode));
        },
    }
    eff
}

// ---------------------------------------------------------------------------
// Player events
// ---------------------------------------------------------------------------

/// The first queue entry of the video `vid`.
pub open spec fn queue_position_from(q: Seq<Song>, vid: Seq<char>, i: int) -> Option<int>
    decreases q.len() - i,
{
    if i < 0 || i >= q.len() {
        None
    } else if q[i].video_id@ == vid {
        Some(i)
    } else {
        queue_position_from(q, vid, i + 1)
    }
}

pub open spec fn queue_position(q: Seq<Song>, vid: Seq<char>) -> Option<usize> {
    match queue_position_from(q, vid, 0) {
        Some(i) => Some(i as usize),
        None => None,
    }
}

/// What the interface does when the player reports an event. A new
/// playlist is remembered (and the queue saved). When a video starts, the
/// queue entry of that video becomes the playing one — none, if the video
/// is not queued; a change of entry restarts the clock and reports playing.
/// A pause or resume changes the status while an entry is playing.
pub open spec fn mpv_event(old: App, event: crate::tui::MpvEvent, new: App, eff: Seq<Effect>) -> bool {
    match event {
        crate::tui::MpvEvent::ListChange(ids) => new == App { mpv_list: ids, ..old } && eff
            == seq![Effect::SaveQueue],
        crate::tui::MpvEvent::StartPlaying(vid) => {
            let idx = queue_position(old.queue@, vid@);
            if idx != old.playing_song {
                new == App { status: PlayerStatus::Playing, playing_song: idx, ..old } && eff
                    == seq![Effect::Clock(Clock::Restart)]
            } else {
                new == old && eff == Seq::<Effect>::empty()
            }
        },
        crate::tui::MpvEvent::PauseChange(paused) => eff == Seq::<Effect>::empty() && new == if old.playing_song
            is Some {
            App {
                status: if paused {
                    PlayerStatus::Paused
                } else {
                    PlayerStatus::Playing
                },
                ..old
            }
        } else {
            old
        },
    }
}

proof fn lemma_queue_position_in(q: Seq<Song>, vid: Seq<char>, i: int)
    requires
        i >= 0,
    ensures
        queue_position_from(q, vid, i) matches Some(p) ==> i <= p < q.len(),
    decreases q.len() - i,
{
    if i < q.len() && q[i].video_id@ != vid {
        lemma_queue_position_in(q, vid, i + 1);
    }
}

fn queue_position_of(q: &Vec<Song>, vid: &str) -> (res: Option<usize>)
    ensures
        res == queue_position(q@, vid@),
{
    let v = str_chars(vid);
    let mut i: usize = 0;
    proof {
        lemma_queue_position_in(q@, vid@, 0);
    }
    while i < q.len()
        invariant
            i <= q@.len(),
            v@ == vid@,
            queue_position_from(q@, vid@, 0) == queue_position_from(q@, vid@, i as int),
        decreases q@.len() - i,
    {
        if chars_eq(str_chars(q[i].video_id.as_str()).as_slice(), v.as_slice()) {
            return Some(i);
        }
        i += 1;
    }
    None
}

/// Reacts to an event of the player (see [`mpv_event`]).
pub fn handle_mpv_event(app: &mut App, event: crate::tui::MpvEvent) -> (res: Vec<Effect>)
    ensures
        mpv_event(*old(app), event, *final(app), res@),
{
    let mut eff: Vec<Effect> = Vec::new();
    match event {
        crate::tui::MpvEvent::ListChange(ids) => {
            app.mpv_list = ids;
            eff.push(Effect::SaveQueue);
        },
        crate::tui::MpvEvent::StartPlaying(vid) => {
            let idx = queue_position_of(&app.queue, vid.as_str());
            if idx != app.playing_song {
                app.status = PlayerStatus::Playing;
                eff.push(Effect::Clock(Clock::Restart));
            }
            app.playing_song = idx;
        },
        crate::tui::MpvEvent::PauseChange(paused) => {
            if app.playing_song.is_some() {
                app.status = if paused {
                    PlayerStatus::Paused
                } else {
                    PlayerStatus::Playing
                };
            }
        },
    }
    eff
}

// ---------------------------------------------------------------------------
// Answers of the API worker
// ---------------------------------------------------------------------------

/// The positions of the playlists the user may edit, in order.
pub open spec fn editable_positions(ps: Seq<Playlist>) -> Seq<usize>
    decreases ps.len(),
{
    if ps.len() == 0 {
        Seq::empty()
    } else if ps.last().is_custom {
        editable_positions(ps.drop_last()).push((ps.len() - 1) as usize)
    } else {
        editable_positions(ps.drop_last())
    }
}

fn editable_positions_of(ps: &Vec<Playlist>) -> (res: Vec<usize>)
    ensures
        res@ == editable_positions(ps@),
{
    let mut out: Vec<usize> = Vec::new();
    let mut i: usize = 0;
    while i < ps.len()
        invariant
            i <= ps@.len(),
            out@ == editable_positions(ps@.take(i as int)),
        decreases ps@.len() - i,
    {
        assert(ps@.take(i + 1).drop_last() =~= ps@.take(i as int));
        if ps[i].is_custom {
            out.push(i);
        }
        i += 1;
    }
    assert(ps@.take(i as int) =~= ps@);
    out
}

/// A song saved to the playlist `id` shows up in that playlist when it is
/// being viewed, and is appended to the queue when the queue plays it.
pub open spec fn song_added(old: App, song: Song, id: Seq<char>, notice: Notice, mid: App, eff: Seq<Effect>) -> bool {
    &&& mid == App { songs: mid.songs, ..old }
    &&& mid.songs@ == if old.viewing_list matches Some(l) && l.playlist_id@ == id {
        old.songs@.push(song)
    } else {
        old.songs@
    }
    &&& eff == seq![Effect::Notify(notice)] + if old.playing_playlist_id matches Some(p) && p@
        == id {
        append_outcome(mid, song)
    } else {
        Seq::<Effect>::empty()
    }
}

/// What an answer of the API worker does, before the wait for it ends.
/// Failures are reported (those of a search only logged). A created
/// playlist joins the playlists (as one a song can be saved to) and closes
/// the form. Saved and liked songs show up as [`song_added`] describes.
/// Search results replace the previous ones, selecting the first of each
/// and focusing the albums when there are any. Songs fetched for viewing
/// replace the viewed list; songs fetched for playing are loaded (see
/// [`load_outcome`]). Removing a playlist recomputes the playlists a song
/// can be saved to; a saved album joins the albums. The library data
/// replace the albums and playlists, selecting the first of each.
pub open spec fn response_step(old: App, r: crate::tui::ApiResponse, mid: App, eff: Seq<Effect>) -> bool {
    match r {
        crate::tui::ApiResponse::CreatePlaylist(Ok(p)) => {
            &&& mid == App {
                playlists: mid.playlists,
                cus_playlists: mid.cus_playlists,
                popup_state: PopupState::Closed,
                ..old
            }
            &&& mid.playlists@ == old.playlists@.push(p)
            &&& mid.cus_playlists@ == old.cus_playlists@.push(old.playlists@.len() as usize)
            &&& eff == seq![Effect::Notify(Notice::CreatedPlaylist)]
        },
        crate::tui::ApiResponse::CreatePlaylist(Err(e)) => mid == old && eff == seq![
            Effect::Notify(Notice::Failed(crate::tui::FailedAction::CreatePlaylist, e)),
        ],
        crate::tui::ApiResponse::SaveSong(Ok((song, id))) => song_added(
            old,
            song,
            id@,
            Notice::SavedToPlaylist(song.title),
            mid,
            eff,
        ),
        crate::tui::ApiResponse::SaveSong(Err(e)) => mid == old && eff == seq![
            Effect::Notify(
                if e is AlreadyInPlaylist {
                    Notice::AlreadyInPlaylist
                } else {
                    Notice::Failed(crate::tui::FailedAction::Save, e)
                },
            ),
        ],
        crate::tui::ApiResponse::Search { albums, songs } => {
            &&& mid == App {
                search_albums: match albums {
                    Ok(a) => a,
                    Err(_) => old.search_albums,
                },
                focus_area: if albums matches Ok(a) && a@.len() > 0 {
                    FocusArea::SearchAlbums
                } else {
                    old.focus_area
                },
                search_albums_selected: if albums matches Ok(a) && a@.len() > 0 {
                    Some(0)
                } else {
                    old.search_albums_selected
                },
                search_songs: match songs {
                    Ok(s) => s,
                    Err(_) => old.search_songs,
                },
                search_songs_selected: if songs matches Ok(s) && s@.len() > 0 {
                    Some(0)
                } else {
                    old.search_songs_selected
                },
                ..old
            }
            &&& eff == (match albums {
                Ok(_) => Seq::<Effect>::empty(),
                Err(e) => seq![Effect::Log(e)],
            }) + (match songs {
                Ok(_) => Seq::<Effect>::empty(),
                Err(e) => seq![Effect::Log(e)],
            })
        },
        crate::tui::ApiResponse::LikeSong(Ok(song)) => song_added(
            old,
            song,
            "LM"@,
            Notice::Liked(song.title),
            mid,
            eff,
        ),
        crate::tui::ApiResponse::LikeSong(Err(e)) => mid == old && eff == seq![
            Effect::Notify(Notice::Failed(crate::tui::FailedAction::Like, e)),
        ],
        crate::tui::ApiResponse::UnlikeSong(res, title) => mid == old && eff == seq![
            Effect::Notify(
                match res {
                    Ok(_) => Notice::Unliked(title),
                    Err(e) => Notice::Failed(crate::tui::FailedAction::Unlike(title), e),
                },
            ),
        ],
        crate::tui::ApiResponse::UnsaveSong(res, title) => mid == old && eff == seq![
            Effect::Notify(
                match res {
                    Ok(_) => Notice::Unsaved(title),
                    Err(e) => Notice::Failed(crate::tui::FailedAction::Unsave(title), e),
                },
            ),
        ],
        crate::tui::ApiResponse::GetSongsToView { songs, playlist } => match songs {
            Ok(s) => mid == App {
                songs: s,
                viewing_list: Some(playlist),
                songs_selected: if s@.len() > 0 {
                    Some(0)
                } else {
                    old.songs_selected
                },
                ..old
            } && eff == Seq::<Effect>::empty(),
            Err(e) => mid == old && eff == seq![
                Effect::Notify(Notice::Failed(crate::tui::FailedAction::FetchSongs, e)),
            ],
        },
        crate::tui::ApiResponse::GetSongsToPlay { songs, playlist_id } => match songs {
            Ok(s) => load_outcome(old, s, 0, Some(playlist_id), false, mid, eff),
            Err(e) => mid == old && eff == seq![
                Effect::Notify(Notice::Failed(crate::tui::FailedAction::FetchSongs, e)),
            ],
        },
        crate::tui::ApiResponse::UnsaveAlbum(res, list) => mid == old && eff == seq![
            Effect::Notify(
                match res {
                    Ok(_) => Notice::UnsavedAlbum(list.title),
                    Err(e) => Notice::Failed(crate::tui::FailedAction::UnsaveAlbum(list.title), e),
                },
            ),
        ],
        crate::tui::ApiResponse::UnsaveCusPlaylist(res, title) => match res {
            Ok(_) => {
                &&& mid == App { cus_playlists: mid.cus_playlists, ..old }
                &&& mid.cus_playlists@ == editable_positions(old.playlists@)
                &&& eff == seq![Effect::Notify(Notice::UnsavedPlaylist(title))]
            },
            Err(e) => mid == old && eff == seq![
                Effect::Notify(
                    Notice::Failed(crate::tui::FailedAction::UnsavePlaylist(title), e),
                ),
            ],
        },
        crate::tui::ApiResponse::SaveAlbum(res, album) => match res {
            Ok(_) => {
                &&& mid == App { albums: mid.albums, ..old }
                &&& mid.albums@ == old.albums@.push(album)
                &&& eff == seq![Effect::Notify(Notice::SavedAlbum(album.title))]
            },
            Err(e) => mid == old && eff == seq![
                Effect::Notify(
                    Notice::Failed(crate::tui::FailedAction::SaveAlbum(album.title), e),
                ),
            ],
        },
        crate::tui::ApiResponse::GetRelatedSongsToPlay(songs) => match songs {
            Ok(s) => load_outcome(old, s, 0, None, false, mid, eff),
            Err(e) => mid == old && eff == seq![
                Effect::Notify(Notice::Failed(crate::tui::FailedAction::FetchRelatedSongs, e)),
            ],
        },
        crate::tui::ApiResponse::FetchLibraryData(data) => match data {
            Ok((a, p, c)) => mid == App {
                albums: a,
                playlists: p,
                cus_playlists: c,
                albums_selected: if a@.len() > 0 {
                    Some(0)
                } else {
                    old.albums_selected
                },
                playlists_selected: if p@.len() > 0 {
                    Some(0)
                } else {
                    old.playlists_selected
                },
                ..old
            } && eff == Seq::<Effect>::empty(),
            Err(e) => mid == old && eff == seq![
                Effect::Notify(Notice::Failed(crate::tui::FailedAction::FetchLibrary, e)),
            ],
        },
    }
}

/// An answer of the API worker: its step (see [`response_step`]), after
/// which nothing is being waited for.
pub open spec fn api_response(old: App, r: crate::tui::ApiResponse, new: App, eff: Seq<Effect>) -> bool {
    exists|mid: App| response_step(old, r, mid, eff) && new == App { api_loading_kind: None, ..mid }
}

fn add_song(app: &mut App, song: Song, id: &str, notice: Notice) -> (res: Vec<Effect>)
    ensures
        song_added(*old(app), song, id@, notice, *final(app), res@),
{
    let viewing = match &app.viewing_list {
        Some(l) => chars_eq(str_chars(l.playlist_id.as_str()).as_slice(), str_chars(id).as_slice()),
        None => false,
    };
    if viewing {
        app.songs.push(copy_song(&song));
    }
    let playing = match &app.playing_playlist_id {
        Some(p) => chars_eq(str_chars(p.as_str()).as_slice(), str_chars(id).as_slice()),
        None => false,
    };
    let mut eff: Vec<Effect> = Vec::new();
    eff.push(Effect::Notify(notice));
    if playing {
        let mut more = append_song_to_queue(app, song);
        eff.append(&mut more);
    }
    eff
}

/// Reacts to an answer of the API worker (see [`api_response`]).
pub fn handle_api_response(app: &mut App, response: crate::tui::ApiResponse) -> (res: Vec<Effect>)
    ensures
        api_response(*old(app), response, *final(app), res@),
{
    let ghost r0 = response;
    let mut eff: Vec<Effect> = Vec::new();
    match response {
        crate::tui::ApiResponse::CreatePlaylist(Ok(p)) => {
            let n = app.playlists.len();
            app.playlists.push(p);
            app.cus_playlists.push(n);
            app.popup_state = PopupState::Closed;
            eff.push(Effect::Notify(Notice::CreatedPlaylist));
        },
        crate::tui::ApiResponse::CreatePlaylist(Err(e)) => {
            eff.push(Effect::Notify(Notice::Failed(crate::tui::FailedAction::CreatePlaylist, e)));
        },
        crate::tui::ApiResponse::SaveSong(Ok((song, id))) => {
            let title = song.title.clone();
            eff = add_song(app, song, id.as_str(), Notice::SavedToPlaylist(title));
        },
        crate::tui::ApiResponse::SaveSong(Err(e)) => {
            let notice = match e {
                crate::error::YError::AlreadyInPlaylist => Notice::AlreadyInPlaylist,
                other => Notice::Failed(crate::tui::FailedAction::Save, other),
            };
            eff.push(Effect::Notify(notice));
        },
        crate::tui::ApiResponse::Search { albums, songs } => {
            let ghost ga = albums;
            let ghost gs = songs;
            match albums {
                Ok(a) => {
                    let nonempty = a.len() > 0;
                    app.search_albums = a;
                    if nonempty {
                        app.focus_area = FocusArea::SearchAlbums;
                        app.search_albums_selected = Some(0);
                    }
                },
                Err(e) => {
                    eff.push(Effect::Log(e));
                },
            }
            match songs {
                Ok(s) => {
                    let nonempty = s.len() > 0;
                    app.search_songs = s;
                    if nonempty {
                        app.search_songs_selected = Some(0);
                    }
                },
                Err(e) => {
                    eff.push(Effect::Log(e));
                },
            }
            assert(eff@ =~= (match ga {
                Ok(_) => Seq::<Effect>::empty(),
                Err(e) => seq![Effect::Log(e)],
            }) + (match gs {
                Ok(_) => Seq::<Effect>::empty(),
                Err(e) => seq![Effect::Log(e)],
            }));
        },
        crate::tui::ApiResponse::LikeSong(Ok(song)) => {
            let title = song.title.clone();
            eff = add_song(app, song, "LM", Notice::Liked(title));
            proof {
                reveal_strlit("LM");
            }
        },
        crate::tui::ApiResponse::LikeSong(Err(e)) => {
            eff.push(Effect::Notify(Notice::Failed(crate::tui::FailedAction::Like, e)));
        },
        crate::tui::ApiResponse::UnlikeSong(res, title) => {
            let notice = match res {
                Ok(_) => Notice::Unliked(title),
                Err(e) => Notice::Failed(crate::tui::FailedAction::Unlike(title), e),
            };
            eff.push(Effect::Notify(notice));
        },
        crate::tui::ApiResponse::UnsaveSong(res, title) => {
            let notice = match res {
                Ok(_) => Notice::Unsaved(title),
                Err(e) => Notice::Failed(crate::tui::FailedAction::Unsave(title), e),
            };
            eff.push(Effect::Notify(notice));
        },
        crate::tui::ApiResponse::GetSongsToView { songs, playlist } => {
            match songs {
                Ok(s) => {
                    let nonempty = s.len() > 0;
                    app.songs = s;
                    app.viewing_list = Some(playlist);
                    if nonempty {
                        app.songs_selected = Some(0);
                    }
                },
                Err(e) => {
                    eff.push(
                        Effect::Notify(Notice::Failed(crate::tui::FailedAction::FetchSongs, e)),
                    );
                },
            }
        },
        crate::tui::ApiResponse::GetSongsToPlay { songs, playlist_id } => {
            match songs {
                Ok(s) => {
                    eff = load_list(app, s, 0, Some(playlist_id), false);
                },
                Err(e) => {
                    eff.push(
                        Effect::Notify(Notice::Failed(crate::tui::FailedAction::FetchSongs, e)),
                    );
                },
            }
        },
        crate::tui::ApiResponse::UnsaveAlbum(res, list) => {
            let notice = match res {
                Ok(_) => Notice::UnsavedAlbum(list.title),
                Err(e) => Notice::Failed(crate::tui::FailedAction::UnsaveAlbum(list.title), e),
            };
            eff.push(Effect::Notify(notice));
        },
        crate::tui::ApiResponse::UnsaveCusPlaylist(res, title) => {
            match res {
                Ok(_) => {
                    app.cus_playlists = editable_positions_of(&app.playlists);
                    eff.push(Effect::Notify(Notice::UnsavedPlaylist(title)));
                },
                Err(e) => {
                    eff.push(
                        Effect::Notify(
                            Notice::Failed(crate::tui::FailedAction::UnsavePlaylist(title), e),
                        ),
                    );
                },
            }
        },
        crate::tui::ApiResponse::SaveAlbum(res, album) => {
            match res {
                Ok(_) => {
                    let title = album.title.clone();
                    app.albums.push(album);
                    eff.push(Effect::Notify(Notice::SavedAlbum(title)));
                },
                Err(e) => {
                    eff.push(
                        Effect::Notify(
                            Notice::Failed(crate::tui::FailedAction::SaveAlbum(album.title), e),
                        ),
                    );
                },
            }
        },
        crate::tui::ApiResponse::GetRelatedSongsToPlay(songs) => {
            match songs {
                Ok(s) => {
                    eff = load_list(app, s, 0, None, false);
                },
                Err(e) => {
                    eff.push(
                        Effect::Notify(
                            Notice::Failed(crate::tui::FailedAction::FetchRelatedSongs, e),
                        ),
                    );
                },
            }
        },
        crate::tui::ApiResponse::FetchLibraryData(data) => {
            match data {
                Ok((a, p, c)) => {
                    let some_albums = a.len() > 0;
                    let some_playlists = p.len() > 0;
                    app.albums = a;
                    app.playlists = p;
                    app.cus_playlists = c;
                    if some_albums {
                        app.albums_selected = Some(0);
                    }
                    if some_playlists {
                        app.playlists_selected = Some(0);
                    }
                },
                Err(e) => {
                    eff.push(
                        Effect::Notify(Notice::Failed(crate::tui::FailedAction::FetchLibrary, e)),
                    );
                },
            }
        },
    }
    let ghost mid = *app;
    assert(response_step(*old(app), r0, mid, eff@));
    app.api_loading_kind = None;
    eff
}

/// After connecting: a logged-in session fetches the library; otherwise
/// the user is told that library features are unavailable.
pub open spec fn session_started(old: App, is_authed: bool, new: App, eff: Seq<Effect>) -> bool {
    if is_authed {
        new == App { api_loading_kind: Some(ApiLoadingKind::FetchLibraryData), ..old } && eff
            == seq![Effect::Api(ApiCmd::FetchLibraryData)]
    } else {
        new == old && eff == seq![Effect::Notify(Notice::LoggedOut)]
    }
}

/// Starts the interface on a connection (see [`session_started`]).
pub fn start_session(app: &mut App, is_authed: bool) -> (res: Vec<Effect>)
    ensures
        session_started(*old(app), is_authed, *final(app), res@),
{
    let mut eff: Vec<Effect> = Vec::new();
    if is_authed {
        eff.push(Effect::Api(ApiCmd::FetchLibraryData));
        app.api_loading_kind = Some(ApiLoadingKind::FetchLibraryData);
    } else {
        eff.push(Effect::Notify(Notice::LoggedOut));
    }
    eff
}

// ---------------------------------------------------------------------------
// Notifications and plan commands
// ---------------------------------------------------------------------------

/// The text a failure notification starts with, before the error message.
pub open spec fn failed_prefix(a: crate::tui::FailedAction) -> Seq<char> {
    match a {
        crate::tui::FailedAction::CreatePlaylist => "Failed to create playlist: "@,
        crate::tui::FailedAction::Save => "Failed to save: "@,
        crate::tui::FailedAction::Like => "Failed to like: "@,
        crate::tui::FailedAction::Unlike(t) => "Failed to unlike '"@ + t@ + "'\nError: "@,
        crate::tui::FailedAction::Unsave(t) => "Failed to unsave '"@ + t@ + "'\nError: "@,
        crate::tui::FailedAction::FetchSongs => "Failed to fetch songs\nError: "@,
        crate::tui::FailedAction::UnsaveAlbum(t) => "Failed to unsave album '"@ + t@ + "'\nError: "@,
        crate::tui::FailedAction::UnsavePlaylist(t) => "Failed to unsave playlist '"@ + t@
            + "'\nError: "@,
        crate::tui::FailedAction::SaveAlbum(t) => "Failed to save album '"@ + t@ + "'\nError: "@,
        crate::tui::FailedAction::FetchRelatedSongs => "Failed to fetch related songs\nError: "@,
        crate::tui::FailedAction::FetchLibrary => "Failed to fetch Library data: "@,
    }
}

/// How a notification looks and what it says. A failure shows the prefix
/// of its operation followed by the error's message.
pub open spec fn notice_shows(n: Notice, kind: crate::tui::NotifyType, text: Seq<char>) -> bool {
    let ok = crate::tui::NotifyType::Success;
    let bad = crate::tui::NotifyType::Error;
    match n {
        Notice::LoggedOut => kind == bad && text
            == "Running in logged-out mode. Library features are unavailable"@,
        Notice::ClearedQueue => kind == ok && text == "Cleared Queue"@,
        Notice::RemovedFromQueue => kind == ok && text == "Removed song from Queue"@,
        Notice::CannotRemovePlaylist => kind == bad && text == "Can not remove this playlist"@,
        Notice::TitleEmpty => kind == bad && text == "Title must not be empty"@,
        Notice::ListAlreadyPlaying => kind == bad && text
            == "Playlist/Album's already been playing, change song in Queue"@,
        Notice::CannotEditList => kind == bad && text == "Unable to edit this Album/Playlist"@,
        Notice::AlreadyInQueue(t) => kind == bad && text == "'"@ + t@ + "' already in queue"@,
        Notice::AppendedToQueue(t) => kind == ok && text == "Appended '"@ + t@ + "' in queue"@,
        Notice::CreatedPlaylist => kind == ok && text == "Created playlist"@,
        Notice::SavedToPlaylist(t) => kind == ok && text == "Saved '"@ + t@ + "' to playlist"@,
        Notice::AlreadyInPlaylist => kind == bad && text == "Song already in playlist"@,
        Notice::Liked(t) => kind == ok && text == "Liked '"@ + t@ + "'"@,
        Notice::Unliked(t) => kind == ok && text == "UnLiked '"@ + t@ + "'"@,
        Notice::Unsaved(t) => kind == ok && text == "Unsaved '"@ + t@ + "'"@,
        Notice::UnsavedAlbum(t) => kind == ok && text == "Unsaved album '"@ + t@ + "'"@,
        Notice::UnsavedPlaylist(t) => kind == ok && text == "Unsaved playlist '"@ + t@ + "'"@,
        Notice::SavedAlbum(t) => kind == ok && text == "Saved album '"@ + t@ + "'"@,
        Notice::Failed(a, e) => kind == bad && exists|m: Seq<char>|
            crate::error::message_matches(e, m) && text == failed_prefix(a) + m,
    }
}

fn quoted(out: &mut Vec<char>, before: &str, t: &String, after: &str)
    ensures
        final(out)@ == old(out)@ + before@ + t@ + after@,
{
    push_str(out, before);
    push_str(out, t.as_str());
    push_str(out, after);
}

/// The look and text of a notification (see [`notice_shows`]).
pub fn notice_text(n: &Notice) -> (res: (crate::tui::NotifyType, String))
    ensures
        notice_shows(*n, res.0, res.1@),
{
    let mut out: Vec<char> = Vec::new();
    let kind = match n {
        Notice::LoggedOut => {
            push_str(&mut out, "Running in logged-out mode. Library features are unavailable");
            crate::tui::NotifyType::Error
        },
        Notice::ClearedQueue => {
            push_str(&mut out, "Cleared Queue");
            crate::tui::NotifyType::Success
        },
        Notice::RemovedFromQueue => {
            push_str(&mut out, "Removed song from Queue");
            crate::tui::NotifyType::Success
        },
        Notice::CannotRemovePlaylist => {
            push_str(&mut out, "Can not remove this playlist");
            crate::tui::NotifyType::Error
        },
        Notice::TitleEmpty => {
            push_str(&mut out, "Title must not be empty");
            crate::tui::NotifyType::Error
        },
        Notice::ListAlreadyPlaying => {
            push_str(&mut out, "Playlist/Album's already been playing, change song in Queue");
            crate::tui::NotifyType::Error
        },
        Notice::CannotEditList => {
            push_str(&mut out, "Unable to edit this Album/Playlist");
            crate::tui::NotifyType::Error
        },
        Notice::AlreadyInQueue(t) => {
            quoted(&mut out, "'", t, "' already in queue");
            crate::tui::NotifyType::Error
        },
        Notice::AppendedToQueue(t) => {
            quoted(&mut out, "Appended '", t, "' in queue");
            crate::tui::NotifyType::Success
        },
        Notice::CreatedPlaylist => {
            push_str(&mut out, "Created playlist");
            crate::tui::NotifyType::Success
        },
        Notice::SavedToPlaylist(t) => {
            quoted(&mut out, "Saved '", t, "' to playlist");
            crate::tui::NotifyType::Success
        },
        Notice::AlreadyInPlaylist => {
            push_str(&mut out, "Song already in playlist");
            crate::tui::NotifyType::Error
        },
        Notice::Liked(t) => {
            quoted(&mut out, "Liked '", t, "'");
            crate::tui::NotifyType::Success
        },
        Notice::Unliked(t) => {
            quoted(&mut out, "UnLiked '", t, "'");
            crate::tui::NotifyType::Success
        },
        Notice::Unsaved(t) => {
            quoted(&mut out, "Unsaved '", t, "'");
            crate::tui::NotifyType::Success
        },
        Notice::UnsavedAlbum(t) => {
            quoted(&mut out, "Unsaved album '", t, "'");
            crate::tui::NotifyType::Success
        },
        Notice::UnsavedPlaylist(t) => {
            quoted(&mut out, "Unsaved playlist '", t, "'");
            crate::tui::NotifyType::Success
        },
        Notice::SavedAlbum(t) => {
            quoted(&mut out, "Saved album '", t, "'");
            crate::tui::NotifyType::Success
        },
        Notice::Failed(a, e) => {
            match a {
                crate::tui::FailedAction::CreatePlaylist => {
                    push_str(&mut out, "Failed to create playlist: ");
                },
                crate::tui::FailedAction::Save => {
                    push_str(&mut out, "Failed to save: ");
                },
                crate::tui::FailedAction::Like => {
                    push_str(&mut out, "Failed to like: ");
                },
                crate::tui::FailedAction::Unlike(t) => {
                    quoted(&mut out, "Failed to unlike '", t, "'\nError: ");
                },
                crate::tui::FailedAction::Unsave(t) => {
                    quoted(&mut out, "Failed to unsave '", t, "'\nError: ");
                },
                crate::tui::FailedAction::FetchSongs => {
                    push_str(&mut out, "Failed to fetch songs\nError: ");
                },
                crate::tui::FailedAction::UnsaveAlbum(t) => {
                    quoted(&mut out, "Failed to unsave album '", t, "'\nError: ");
                },
                crate::tui::FailedAction::UnsavePlaylist(t) => {
                    quoted(&mut out, "Failed to unsave playlist '", t, "'\nError: ");
                },
                crate::tui::FailedAction::SaveAlbum(t) => {
                    quoted(&mut out, "Failed to save album '", t, "'\nError: ");
                },
                crate::tui::FailedAction::FetchRelatedSongs => {
                    push_str(&mut out, "Failed to fetch related songs\nError: ");
                },
                crate::tui::FailedAction::FetchLibrary => {
                    push_str(&mut out, "Failed to fetch Library data: ");
                },
            }
            let ghost prefix = out@;
            assert(prefix =~= failed_prefix(*a));
            let m = e.message();
            push_str(&mut out, m.as_str());
            assert(out@ =~= failed_prefix(*a) + m@);
            crate::tui::NotifyType::Error
        },
    };
    let text = string_from_chars(out.as_slice());
    (kind, text)
}

/// One piece of outside work of a plan.
pub enum Step {
    /// Write the plan's songs as mpv's playlist file.
    WritePlaylist,
    Command(MpvCommand),
}

/// The outside work of a plan, in order (see [`Plan`]).
pub open spec fn plan_steps(plan: Plan) -> Seq<Step> {
    match plan {
        Plan::Clear { .. } => seq![Step::Command(MpvCommand::Clear)],
        Plan::Remove { mpv_idx, .. } => seq![Step::Command(MpvCommand::RemovePos(mpv_idx))],
        Plan::Append { song, shuffle } => seq![
            Step::Command(MpvCommand::AppendSong(song.video_id)),
        ] + if shuffle {
            seq![Step::Command(MpvCommand::Shuffle)]
        } else {
            Seq::<Step>::empty()
        },
        Plan::Load { start, shuffle, .. } => seq![
            Step::WritePlaylist,
            Step::Command(MpvCommand::LoadList),
        ] + (if start > 0 {
            seq![Step::Command(MpvCommand::PlayPos(start))]
        } else {
            Seq::<Step>::empty()
        }) + if shuffle {
            seq![Step::Command(MpvCommand::Shuffle)]
        } else {
            Seq::<Step>::empty()
        },
        Plan::Send(cmd) => seq![Step::Command(cmd)],
        Plan::SaveMode(mode) => seq![
            Step::Command(
                if mode == PlayMode::ShuffleMode {
                    MpvCommand::Shuffle
                } else {
                    MpvCommand::Unshuffle
                },
            ),
        ],
    }
}

fn copy_command(c: &MpvCommand) -> (res: MpvCommand)
    ensures
        res == *c,
{
    match c {
        MpvCommand::PlayPos(i) => MpvCommand::PlayPos(*i),
        MpvCommand::TogglePause => MpvCommand::TogglePause,
        MpvCommand::Shuffle => MpvCommand::Shuffle,
        MpvCommand::Unshuffle => MpvCommand::Unshuffle,
        MpvCommand::PlayNext => MpvCommand::PlayNext,
        MpvCommand::PlayPrev => MpvCommand::PlayPrev,
        MpvCommand::DecreaseVol => MpvCommand::DecreaseVol,
        MpvCommand::IncreaseVol => MpvCommand::IncreaseVol,
        MpvCommand::SeekBackward(s) => MpvCommand::SeekBackward(*s),
        MpvCommand::SeekForward(s) => MpvCommand::SeekForward(*s),
        MpvCommand::AppendSong(v) => MpvCommand::AppendSong(v.clone()),
        MpvCommand::RemovePos(i) => MpvCommand::RemovePos(*i),
        MpvCommand::Clear => MpvCommand::Clear,
        MpvCommand::LoadList => MpvCommand::LoadList,
    }
}

/// The outside work of a plan (see [`plan_steps`]).
pub fn steps_of(plan: &Plan) -> (res: Vec<Step>)
    ensures
        res@ == plan_steps(*plan),
{
    let mut out: Vec<Step> = Vec::new();
    match plan {
        Plan::Clear { .. } => {
            out.push(Step::Command(MpvCommand::Clear));
        },
        Plan::Remove { mpv_idx, .. } => {
            out.push(Step::Command(MpvCommand::RemovePos(*mpv_idx)));
        },
        Plan::Append { song, shuffle } => {
            out.push(Step::Command(MpvCommand::AppendSong(song.video_id.clone())));
            if *shuffle {
                out.push(Step::Command(MpvCommand::Shuffle));
            }
        },
        Plan::Load { start, shuffle, .. } => {
            out.push(Step::WritePlaylist);
            out.push(Step::Command(MpvCommand::LoadList));
            if *start > 0 {
                out.push(Step::Command(MpvCommand::PlayPos(*start)));
            }
            if *shuffle {
                out.push(Step::Command(MpvCommand::Shuffle));
            }
        },
        Plan::Send(cmd) => {
            out.push(Step::Command(copy_command(cmd)));
        },
        Plan::SaveMode(mode) => {
            if *mode == PlayMode::ShuffleMode {
                out.push(Step::Command(MpvCommand::Shuffle));
            } else {
                out.push(Step::Command(MpvCommand::Unshuffle));
            }
        },
    }
    assert(out@ =~= plan_steps(*plan));
    out
}

// ---------------------------------------------------------------------------
// Laws of the interface
// ---------------------------------------------------------------------------

/// Changing the privacy left and then right (or right and then left) gives
/// back the privacy; three steps in one direction go all the way round.
pub proof fn lemma_privacy_round(p: PlayListPrivacy)
    ensures
        privacy_right(privacy_left(p)) == p,
        privacy_left(privacy_right(p)) == p,
        privacy_left(privacy_left(privacy_left(p))) == p,
        privacy_right(privacy_right(privacy_right(p))) == p,
{
}

/// Tab goes round the three fields of the playlist form.
pub proof fn lemma_form_fields_round(f: CreatePlaylistFocus)
    ensures
        next_field(f) != f,
        next_field(next_field(next_field(f))) == f,
{
}

/// Typing a character and deleting it gives back the text.
pub proof fn lemma_typing_undone(t: Seq<char>, c: char)
    ensures
        backspaced(t.push(c)) == t,
{
    assert(t.push(c).drop_last() =~= t);
}

/// Tab always switches to the other page, and switching twice leaves the
/// lists, the queue and the popup as they were.
pub proof fn lemma_page_switch(a: App)
    ensures
        after_page_event(a).page != a.page,
        after_page_event(after_page_event(a)).page == a.page,
        after_page_event(after_page_event(a)).queue == a.queue,
        after_page_event(after_page_event(a)).popup_state == a.popup_state,
{
}

/// Switching the play mode twice gives back the mode.
pub proof fn lemma_play_mode_round(m: PlayMode)
    ensures
        toggled_mode(m) != m,
        toggled_mode(toggled_mode(m)) == m,
{
}

/// Removing a queue entry keeps the entry being played pointed at: the
/// same song is playing afterwards, unless the removed entry was the one
/// playing, in which case nothing is.
pub proof fn lemma_removal_keeps_playing_song(q: Seq<Song>, idx: usize, playing: Option<usize>)
    requires
        idx < q.len(),
        playing matches Some(p) ==> p < q.len(),
    ensures
        match playing_after_removal(playing, idx) {
            Some(n) => playing matches Some(p) && p != idx && n < q.remove(idx as int).len()
                && q.remove(idx as int)[n as int] == q[p as int],
            None => playing is None || playing == Some(idx),
        },
{
}

/// No video is queued twice.
pub open spec fn no_dup_videos(q: Seq<Song>) -> bool {
    forall|i: int, j: int| 0 <= i < j < q.len() ==> q[i].video_id@ != q[j].video_id@
}

/// Appending through [`append_song_to_queue`] and [`finish_plan`] never
/// queues a video twice; a failed append leaves the queue as it was.
pub proof fn lemma_append_keeps_videos_unique(
    old: App,
    song: Song,
    done: bool,
    new: App,
    eff: Seq<Effect>,
)
    requires
        no_dup_videos(old.queue@),
        append_outcome(old, song)[0] is Run,
        plan_finished(old, append_outcome(old, song)[0]->Run_0, done, new, eff),
    ensures
        no_dup_videos(new.queue@),
        done ==> new.queue@ == old.queue@.push(song),
        !done ==> new == old,
{
    let q = old.queue@;
    if done {
        assert(!queue_ids(q).contains(song.video_id@));
        let nq = q.push(song);
        assert forall|i: int, j: int| 0 <= i < j < nq.len() implies nq[i].video_id@
            != nq[j].video_id@ by {
            if j == q.len() {
                assert(queue_ids(q)[i] == q[i].video_id@);
            }
        }
    }
}

/// A plan whose commands did not all go through changes nothing.
pub proof fn lemma_failed_plan_changes_nothing(old: App, plan: Plan, new: App, eff: Seq<Effect>)
    requires
        plan_finished(old, plan, false, new, eff),
    ensures
        new == old,
        eff.len() == 0,
{
}


/// With songs in the queue, `b` asks the player for the previous song and
/// `n` for the next one, and nothing else; the two keys never send the same
/// command. Outside a popup and typing, that is all a key press of `b` or
/// `n` does.
pub proof fn lemma_previous_and_next_song_keys(
    a: App,
    seek_seconds: i64,
    b_new: App,
    b_eff: Seq<Effect>,
    n_new: App,
    n_eff: Seq<Effect>,
)
    requires
        a.queue@.len() > 0,
        player_event(a, Key::Char('b'), seek_seconds, b_new, b_eff),
        player_event(a, Key::Char('n'), seek_seconds, n_new, n_eff),
    ensures
        b_eff == seq![Effect::Run(Plan::Send(MpvCommand::PlayPrev))],
        n_eff == seq![Effect::Run(Plan::Send(MpvCommand::PlayNext))],
        b_eff != n_eff,
        b_new == a && n_new == a,
{
    assert(b_eff[0] != n_eff[0]);
}

/// A key press of `b` with songs in the queue, outside a popup and not
/// typing, has exactly one effect: the player is asked for the previous
/// song.
pub proof fn lemma_previous_song_key_press(a: App, seek_seconds: i64, new: App, eff: Seq<Effect>)
    requires
        a.queue@.len() > 0,
        !a.popup_active(),
        !a.is_insert,
        key_event(a, Key::Char('b'), seek_seconds, new, eff),
    ensures
        eff == seq![Effect::Run(Plan::Send(MpvCommand::PlayPrev))],
{
    let (a2, a3, a4, e1, e2, e3, e4) = choose|
        a2: App,
        a3: App,
        a4: App,
        e1: Seq<Effect>,
        e2: Seq<Effect>,
        e3: Seq<Effect>,
        e4: Seq<Effect>,
    |
        {
            &&& global_keys(a, Key::Char('b'), a2, e1)
            &&& focus_keys(a2, Key::Char('b'), a3, e2)
            &&& player_event(a3, Key::Char('b'), seek_seconds, a4, e3)
            &&& page_keys(a4, Key::Char('b'), new, e4)
            &&& eff == e1 + e2 + e3 + e4
        };
    assert(e1 =~= Seq::<Effect>::empty());
    assert(a2 == a);
    assert(e2 =~= Seq::<Effect>::empty());
    assert(a3.queue == a.queue);
    assert(e4 =~= Seq::<Effect>::empty());
    assert(eff =~= e3);
}

/// When mpv reports a pause change while a song is playing, the player
/// shows paused exactly when mpv paused, and playing when it resumed; the
/// event has no effect of its own.
pub proof fn lemma_pause_change_sets_status(a: App, paused: bool, new: App, eff: Seq<Effect>)
    requires
        a.playing_song is Some,
        mpv_event(a, crate::tui::MpvEvent::PauseChange(paused), new, eff),
    ensures
        paused ==> new.status == PlayerStatus::Paused,
        !paused ==> new.status == PlayerStatus::Playing,
        (new.status == PlayerStatus::Paused) == paused,
        eff.len() == 0,
{
}

/// A saved album joins the library: after a successful save the album list
/// is the old one with the album at its end, one longer, and the user is
/// told the album was saved.
pub proof fn lemma_saved_album_joins_library(
    a: App,
    ok: (),
    album: Playlist,
    new: App,
    eff: Seq<Effect>,
)
    requires
        api_response(a, crate::tui::ApiResponse::SaveAlbum(Ok(ok), album), new, eff),
    ensures
        new.albums@ == a.albums@.push(album),
        new.albums@.len() == a.albums@.len() + 1,
        new.albums@.last() == album,
        eff == seq![Effect::Notify(Notice::SavedAlbum(album.title))],
{
}

/// Loading a non-empty list is one load plan for exactly those songs, which
/// shuffles exactly in shuffle mode: its steps end with a shuffle command
/// in shuffle mode and never hold one otherwise.
pub proof fn lemma_load_shuffles_in_shuffle_mode(
    a: App,
    songs: Vec<Song>,
    start: usize,
    playlist_id: Option<String>,
    focus_queue: bool,
    new: App,
    eff: Seq<Effect>,
)
    requires
        songs@.len() > 0,
        load_outcome(a, songs, start, playlist_id, focus_queue, new, eff),
    ensures
        eff.len() == 1,
        eff[0] matches Effect::Run(Plan::Load { songs: s, shuffle, .. }) && s == songs && shuffle == (
        a.play_mode == PlayMode::ShuffleMode),
        eff[0] matches Effect::Run(p) && (a.play_mode == PlayMode::ShuffleMode <==> plan_steps(p).last()
            == Step::Command(MpvCommand::Shuffle)),
        eff[0] matches Effect::Run(p) && (a.play_mode != PlayMode::ShuffleMode ==> !plan_steps(
            p,
        ).contains(Step::Command(MpvCommand::Shuffle))),
{
    let p = eff[0]->Run_0;
    let steps = plan_steps(p);
    if a.play_mode != PlayMode::ShuffleMode {
        if steps.contains(Step::Command(MpvCommand::Shuffle)) {
            let k = choose|k: int| 0 <= k < steps.len() && steps[k] == Step::Command(MpvCommand::Shuffle);
            if start > 0 {
                assert(steps =~= seq![
                    Step::WritePlaylist,
                    Step::Command(MpvCommand::LoadList),
                    Step::Command(MpvCommand::PlayPos(start)),
                ]);
            } else {
                assert(steps =~= seq![Step::WritePlaylist, Step::Command(MpvCommand::LoadList)]);
            }
            assert(steps[k] != Step::Command(MpvCommand::Shuffle));
        }
        if start > 0 {
            assert(steps.last() == Step::Command(MpvCommand::PlayPos(start)));
        } else {
            assert(steps.last() == Step::Command(MpvCommand::LoadList));
        }
    }
}


/// The other player keys: `-` lowers and `+` raises the volume (never the
/// same command), the left and right arrows seek back and forward by the
/// configured step, the space bar toggles pause while a song is playing,
/// and `m` switches the play mode and saves the new mode; only `m` changes
/// the state.
pub proof fn lemma_player_keys(
    a: App,
    seek_seconds: i64,
    key: Key,
    new: App,
    eff: Seq<Effect>,
)
    requires
        player_event(a, key, seek_seconds, new, eff),
    ensures
        key == Key::Char('-') ==> eff == seq![Effect::Run(Plan::Send(MpvCommand::DecreaseVol))],
        key == Key::Char('+') ==> eff == seq![Effect::Run(Plan::Send(MpvCommand::IncreaseVol))],
        key == Key::Left ==> eff == seq![
            Effect::Run(Plan::Send(MpvCommand::SeekBackward(seek_seconds))),
        ],
        key == Key::Right ==> eff == seq![
            Effect::Run(Plan::Send(MpvCommand::SeekForward(seek_seconds))),
        ],
        key == Key::Char(' ') && a.playing_song is Some ==> eff == seq![
            Effect::Run(Plan::Send(MpvCommand::TogglePause)),
        ],
        key == Key::Char(' ') && a.playing_song is None ==> eff.len() == 0,
        key == Key::Char('m') ==> new.play_mode != a.play_mode && eff == seq![
            Effect::Run(Plan::SaveMode(new.play_mode)),
        ] && new == (App { play_mode: new.play_mode, ..a }),
        key != Key::Char('m') ==> new == a,
        (key == Key::Char('b') || key == Key::Char('n')) && a.queue@.len() == 0 ==> eff.len() == 0,
{
}

/// When mpv starts a video that is in the queue, the entry playing becomes
/// the first queue entry with that video, and the player shows playing;
/// when mpv's playlist changes, the client keeps the new list of videos.
pub proof fn lemma_mpv_start_and_list(
    a: App,
    event: crate::tui::MpvEvent,
    new: App,
    eff: Seq<Effect>,
    p: int,
)
    requires
        mpv_event(a, event, new, eff),
    ensures
        event matches crate::tui::MpvEvent::StartPlaying(vid) ==> ({
            &&& 0 <= p < a.queue@.len() && a.queue@[p].video_id@ == vid@ && (forall|j: int|
                0 <= j < p ==> a.queue@[j].video_id@ != vid@) ==> new.playing_song == Some(
                p as usize,
            )
            &&& new.playing_song != a.playing_song ==> new.status == PlayerStatus::Playing
            &&& new.queue == a.queue
        }),
        event matches crate::tui::MpvEvent::ListChange(ids) ==> new.mpv_list == ids && new.queue
            == a.queue,
{
    if let crate::tui::MpvEvent::StartPlaying(vid) = event {
        if 0 <= p < a.queue@.len() && a.queue@[p].video_id@ == vid@ && (forall|j: int|
            0 <= j < p ==> a.queue@[j].video_id@ != vid@) {
            lemma_first_position(a.queue@, vid@, 0, p);
        }
    }
}

proof fn lemma_first_position(q: Seq<Song>, vid: Seq<char>, i: int, p: int)
    requires
        0 <= i <= p < q.len(),
        q[p].video_id@ == vid,
        forall|j: int| i <= j < p ==> q[j].video_id@ != vid,
    ensures
        queue_position_from(q, vid, i) == Some(p),
    decreases p - i,
{
    if i < p {
        lemma_first_position(q, vid, i + 1, p);
    }
}

/// A failed album save leaves the library as it was and reports the failure.
pub proof fn lemma_failed_album_save(
    a: App,
    e: crate::error::YError,
    album: Playlist,
    new: App,
    eff: Seq<Effect>,
)
    requires
        api_response(a, crate::tui::ApiResponse::SaveAlbum(Err(e), album), new, eff),
    ensures
        new.albums == a.albums,
        eff.len() == 1 && (eff[0] is Notify),
{
}

} // verus!
