use gytm::bus::{Playlist, Song};
use gytm::dao::PlayListPrivacy;
use gytm::error::YError;
use gytm::handler::{
    list_move, check_plan_fits, finish_plan, handle_api_response, handle_key_events, handle_mpv_event,
    handle_page_event, key_selection_holds, list_to_navigate, notice_text, start_session, steps_of, Step,
};
use gytm::tui::{
    ApiCmd, ApiLoadingKind, ApiResponse, App, AppPage, Clock, CreatePlaylistFocus, Effect, FailedAction,
    FocusArea, Key, ListId, ListMove, MpvCommand, MpvEvent, Notice, NotifyType, Plan, PlayMode, PlayerStatus,
    PopupState,
};

fn song(id: &str) -> Song {
    Song { video_id: id.to_string(), set_video_id: String::new(), title: format!("T{id}") }
}

fn playlist(id: &str, custom: bool) -> Playlist {
    Playlist { playlist_id: id.to_string(), title: format!("P{id}"), is_custom: custom, is_saved: false }
}

fn app() -> App {
    App {
        page: AppPage::Library,
        focus_area: FocusArea::Albums,
        is_insert: false,
        is_exit: false,
        popup_state: PopupState::Closed,
        search_query: String::new(),
        queue: Vec::new(),
        queue_selected: None,
        playing_song: None,
        playing_playlist_id: None,
        status: PlayerStatus::Idle,
        play_mode: PlayMode::DefaultMode,
        albums: Vec::new(),
        albums_selected: None,
        playlists: Vec::new(),
        playlists_selected: None,
        cus_playlists: Vec::new(),
        cus_playlists_selected: None,
        search_albums: Vec::new(),
        search_albums_selected: None,
        search_songs: Vec::new(),
        search_songs_selected: None,
        songs: Vec::new(),
        songs_selected: None,
        viewing_list: None,
        api_loading_kind: None,
        mpv_list: Vec::new(),
    }
}

fn key(a: &mut App, k: Key) -> Vec<Effect> {
    assert!(key_selection_holds(a, k));
    handle_key_events(a, k, 5)
}

fn run(a: &mut App, effects: Vec<Effect>, ok: bool) -> Vec<Effect> {
    let mut out = Vec::new();
    for e in effects {
        match e {
            Effect::Run(plan) => {
                assert!(check_plan_fits(a, &plan));
                out.extend(finish_plan(a, plan, ok));
            }
            other => out.push(other),
        }
    }
    out
}

#[test]
fn tab_switches_pages() {
    let mut a = app();
    handle_page_event(&mut a);
    assert_eq!(a.page, AppPage::Search);
    assert!(a.is_insert, "nothing to show yet: typing starts at once");
    handle_page_event(&mut a);
    assert_eq!(a.page, AppPage::Library);
    assert!(!a.is_insert);
    assert_eq!(a.focus_area, FocusArea::Albums);

    a.queue.push(song("q"));
    a.focus_area = FocusArea::Queue;
    handle_page_event(&mut a);
    assert_eq!(a.focus_area, FocusArea::Queue);
    assert!(!a.is_insert);
}

#[test]
fn typing_a_search() {
    let mut a = app();
    key(&mut a, Key::Tab);
    for c in "lofi".chars() {
        assert!(key(&mut a, Key::Char(c)).is_empty());
    }
    key(&mut a, Key::Backspace);
    assert_eq!(a.search_query, "lof");
    let e = key(&mut a, Key::Enter);
    assert!(matches!(&e[..], [Effect::Api(ApiCmd::Search(q))] if q == "lof"));
    assert!(!a.is_insert);
    assert_eq!(a.api_loading_kind, Some(ApiLoadingKind::Search));
}

#[test]
fn search_results_select_first() {
    let mut a = app();
    a.api_loading_kind = Some(ApiLoadingKind::Search);
    let e = handle_api_response(
        &mut a,
        ApiResponse::Search { albums: Ok(vec![playlist("A1", false)]), songs: Err(YError::InvalidCookie) },
    );
    assert_eq!(a.search_albums.len(), 1);
    assert_eq!(a.search_albums_selected, Some(0));
    assert_eq!(a.focus_area, FocusArea::SearchAlbums);
    assert!(matches!(&e[..], [Effect::Log(YError::InvalidCookie)]));
    assert_eq!(a.api_loading_kind, None);
}

#[test]
fn removing_from_queue_keeps_playing_song() {
    let mut a = app();
    a.queue = vec![song("a"), song("b"), song("c")];
    a.focus_area = FocusArea::Queue;
    a.queue_selected = Some(0);
    a.playing_song = Some(2);
    a.status = PlayerStatus::Playing;
    let e = key(&mut a, Key::Char('d'));
    assert!(matches!(&e[..], [Effect::Run(Plan::Remove { idx: 0, mpv_idx: 0 })]));
    assert_eq!(a.queue.len(), 3, "nothing changes before mpv answers");
    let out = run(&mut a, e, true);
    assert_eq!(a.queue.len(), 2);
    assert_eq!(a.playing_song, Some(1));
    assert_eq!(a.queue[1].video_id, "c");
    assert!(matches!(&out[..], [Effect::Notify(Notice::RemovedFromQueue)]));
}

#[test]
fn removing_in_shuffle_mode_uses_mpv_position() {
    let mut a = app();
    a.queue = vec![song("a"), song("b")];
    a.mpv_list = vec!["b".to_string(), "a".to_string()];
    a.play_mode = PlayMode::ShuffleMode;
    a.focus_area = FocusArea::Queue;
    a.queue_selected = Some(0);
    let e = key(&mut a, Key::Char('d'));
    assert!(matches!(&e[..], [Effect::Run(Plan::Remove { idx: 0, mpv_idx: 1 })]));
    let e = key(&mut a, Key::Enter);
    assert!(matches!(&e[..], [Effect::Run(Plan::Send(MpvCommand::PlayPos(1)))]));
}

#[test]
fn removing_last_song_stops_playback() {
    let mut a = app();
    a.queue = vec![song("a")];
    a.playing_song = Some(0);
    a.playing_playlist_id = Some("PL".to_string());
    a.status = PlayerStatus::Playing;
    let out = finish_plan(&mut a, Plan::Remove { idx: 0, mpv_idx: 0 }, true);
    assert!(a.queue.is_empty());
    assert_eq!(a.playing_song, None);
    assert_eq!(a.status, PlayerStatus::Idle);
    assert_eq!(a.playing_playlist_id, None);
    assert!(matches!(&out[..], [Effect::Clock(Clock::Stop), Effect::Notify(Notice::RemovedFromQueue)]));
}

#[test]
fn failed_command_changes_nothing() {
    let mut a = app();
    a.queue = vec![song("a")];
    let out = finish_plan(&mut a, Plan::Remove { idx: 0, mpv_idx: 0 }, false);
    assert!(out.is_empty());
    assert_eq!(a.queue.len(), 1);
}

#[test]
fn clearing_the_queue() {
    let mut a = app();
    a.queue = vec![song("a")];
    a.playing_song = Some(0);
    let e = key(&mut a, Key::Char('c'));
    let out = run(&mut a, e, true);
    assert!(a.queue.is_empty());
    assert_eq!(a.playing_song, None);
    assert!(matches!(&out[..], [Effect::Clock(Clock::Stop), Effect::Notify(Notice::ClearedQueue)]));
}

#[test]
fn appending_refuses_duplicates_and_reshuffles() {
    let mut a = app();
    a.queue = vec![song("a"), song("b"), song("c")];
    a.play_mode = PlayMode::ShuffleMode;
    a.songs = vec![song("a"), song("d")];
    a.focus_area = FocusArea::Songs;
    a.songs_selected = Some(0);
    let e = key(&mut a, Key::Char('a'));
    assert!(matches!(&e[..], [Effect::Notify(Notice::AlreadyInQueue(t))] if t == "Ta"));
    a.songs_selected = Some(1);
    let e = key(&mut a, Key::Char('a'));
    match &e[..] {
        [Effect::Run(plan @ Plan::Append { shuffle: true, .. })] => {
            let steps = steps_of(plan);
            assert!(matches!(&steps[..], [Step::Command(MpvCommand::AppendSong(v)), Step::Command(MpvCommand::Shuffle)] if v == "d"));
        }
        _ => panic!("expected an append plan"),
    }
    run(&mut a, e, true);
    assert_eq!(a.queue.len(), 4);
    assert_eq!(a.queue[3].video_id, "d");
}

#[test]
fn playing_the_viewed_list() {
    let mut a = app();
    a.focus_area = FocusArea::Songs;
    a.viewing_list = Some(playlist("PL", false));
    a.songs = vec![song("a"), song("b")];
    a.songs_selected = Some(1);
    let e = key(&mut a, Key::Enter);
    match &e[..] {
        [Effect::Run(plan @ Plan::Load { start: 1, focus_queue: true, .. })] => {
            assert_eq!(steps_of(plan).len(), 3);
        }
        _ => panic!("expected a load plan"),
    }
    run(&mut a, e, true);
    assert_eq!(a.queue.len(), 2);
    assert_eq!(a.queue_selected, Some(1));
    assert_eq!(a.playing_playlist_id, Some("PL".to_string()));
    assert_eq!(a.focus_area, FocusArea::Queue);

    a.focus_area = FocusArea::Songs;
    let e = key(&mut a, Key::Enter);
    assert!(matches!(&e[..], [Effect::Notify(Notice::ListAlreadyPlaying)]));
}

#[test]
fn player_keys() {
    let mut a = app();
    assert!(key(&mut a, Key::Char(' ')).is_empty());
    a.playing_song = Some(0);
    a.queue = vec![song("a")];
    assert!(matches!(&key(&mut a, Key::Char(' '))[..], [Effect::Run(Plan::Send(MpvCommand::TogglePause))]));
    let e = key(&mut a, Key::Char('m'));
    assert_eq!(a.play_mode, PlayMode::ShuffleMode);
    let out = run(&mut a, e, true);
    assert!(matches!(&out[..], [Effect::SavePlayMode(PlayMode::ShuffleMode)]));
    assert!(matches!(&key(&mut a, Key::Left)[..], [Effect::Run(Plan::Send(MpvCommand::SeekBackward(5)))]));
    assert!(matches!(&key(&mut a, Key::Char('n'))[..], [Effect::Run(Plan::Send(MpvCommand::PlayNext))]));
}

#[test]
fn quitting() {
    let mut a = app();
    let e = key(&mut a, Key::Char('q'));
    assert!(a.is_exit);
    assert!(matches!(&e[..], [Effect::Shutdown]));
    let mut a = app();
    a.queue = vec![song("a")];
    assert!(key(&mut a, Key::Char('q')).is_empty());
    assert!(a.is_exit);
}

#[test]
fn playlist_form() {
    let mut a = app();
    a.focus_area = FocusArea::Playlists;
    key(&mut a, Key::Char('a'));
    assert!(matches!(a.popup_state, PopupState::CreatePlaylist { .. }));
    let e = key(&mut a, Key::Enter);
    assert!(matches!(&e[..], [Effect::Notify(Notice::TitleEmpty)]));
    for c in "Mix".chars() {
        key(&mut a, Key::Char(c));
    }
    key(&mut a, Key::Tab);
    key(&mut a, Key::Char('h'));
    key(&mut a, Key::Tab);
    key(&mut a, Key::Left);
    match &a.popup_state {
        PopupState::CreatePlaylist { title, description, privacy, focused_field } => {
            assert_eq!(title, "Mix");
            assert_eq!(description, "h");
            assert_eq!(*privacy, PlayListPrivacy::Unlisted);
            assert_eq!(*focused_field, CreatePlaylistFocus::Privacy);
        }
        _ => panic!("form must stay open"),
    }
    key(&mut a, Key::Char('l'));
    key(&mut a, Key::Char('l'));
    let e = key(&mut a, Key::Enter);
    assert!(matches!(&e[..], [Effect::Api(ApiCmd::CreatePlaylist { title, description, privacy: PlayListPrivacy::Public })] if title == "Mix" && description == "h"));
    let e = handle_api_response(&mut a, ApiResponse::CreatePlaylist(Ok(playlist("NEW", true))));
    assert!(matches!(&e[..], [Effect::Notify(Notice::CreatedPlaylist)]));
    assert!(matches!(a.popup_state, PopupState::Closed));
    assert_eq!(a.cus_playlists, vec![0]);
}

#[test]
fn saving_a_song_to_a_playlist() {
    let mut a = app();
    a.playlists = vec![playlist("LM", true), playlist("PL", true)];
    a.cus_playlists = vec![0, 1];
    a.songs = vec![song("s")];
    a.focus_area = FocusArea::Songs;
    a.songs_selected = Some(0);
    key(&mut a, Key::Char('x'));
    assert!(matches!(a.popup_state, PopupState::SaveSong { .. }));
    assert_eq!(a.cus_playlists_selected, Some(0));
    assert_eq!(list_to_navigate(&a), Some((ListId::CusPlaylists, 2)));
    let e = key(&mut a, Key::Enter);
    assert!(matches!(&e[..], [Effect::Api(ApiCmd::LikeSong(s))] if s.video_id == "s"));
    a.cus_playlists_selected = Some(1);
    let e = key(&mut a, Key::Enter);
    assert!(matches!(&e[..], [Effect::Api(ApiCmd::SaveSong { playlist_id, .. })] if playlist_id == "PL"));
    key(&mut a, Key::Esc);
    assert!(matches!(a.popup_state, PopupState::Closed));
}

#[test]
fn saved_song_joins_viewed_and_playing_list() {
    let mut a = app();
    a.viewing_list = Some(playlist("PL", true));
    a.playing_playlist_id = Some("PL".to_string());
    let e = handle_api_response(&mut a, ApiResponse::SaveSong(Ok((song("n"), "PL".to_string()))));
    assert_eq!(a.songs.len(), 1);
    assert!(matches!(&e[..], [Effect::Notify(Notice::SavedToPlaylist(_)), Effect::Run(Plan::Append { .. })]));
    let e = handle_api_response(&mut a, ApiResponse::SaveSong(Err(YError::AlreadyInPlaylist)));
    assert!(matches!(&e[..], [Effect::Notify(Notice::AlreadyInPlaylist)]));
}

#[test]
fn library_removal_rules() {
    let mut a = app();
    a.focus_area = FocusArea::Playlists;
    a.playlists = vec![playlist("LM", true), playlist("PLc", true), playlist("PLx", false)];
    a.playlists_selected = Some(0);
    let e = key(&mut a, Key::Char('x'));
    assert!(matches!(&e[..], [Effect::Notify(Notice::CannotRemovePlaylist)]));
    a.playlists_selected = Some(1);
    let e = key(&mut a, Key::Char('x'));
    assert!(matches!(&e[..], [Effect::Api(ApiCmd::UnsaveCusPlaylist(p))] if p.playlist_id == "PLc"));
    assert_eq!(a.playlists.len(), 2);
    let e = handle_api_response(&mut a, ApiResponse::UnsaveCusPlaylist(Ok(()), "PPLc".to_string()));
    assert!(matches!(&e[..], [Effect::Notify(Notice::UnsavedPlaylist(t))] if t == "PPLc"));
    assert_eq!(a.cus_playlists, vec![0]);

    a.focus_area = FocusArea::Albums;
    a.albums = vec![playlist("AL", false)];
    a.albums_selected = Some(0);
    let mut saved = playlist("AL", false);
    saved.is_saved = true;
    a.search_albums = vec![saved];
    key(&mut a, Key::Char('x'));
    assert!(a.albums.is_empty());
    assert!(!a.search_albums[0].is_saved);
}

#[test]
fn library_data_selects_first_entries() {
    let mut a = app();
    start_session(&mut a, true);
    assert_eq!(a.api_loading_kind, Some(ApiLoadingKind::FetchLibraryData));
    handle_api_response(
        &mut a,
        ApiResponse::FetchLibraryData(Ok((vec![playlist("A", false)], vec![playlist("LM", true)], vec![0]))),
    );
    assert_eq!(a.albums_selected, Some(0));
    assert_eq!(a.playlists_selected, Some(0));
    assert_eq!(a.api_loading_kind, None);
    let mut b = app();
    let e = start_session(&mut b, false);
    assert!(matches!(&e[..], [Effect::Notify(Notice::LoggedOut)]));
}

#[test]
fn player_events() {
    let mut a = app();
    a.queue = vec![song("a"), song("b")];
    let e = handle_mpv_event(&mut a, MpvEvent::StartPlaying("b".to_string()));
    assert_eq!(a.playing_song, Some(1));
    assert_eq!(a.status, PlayerStatus::Playing);
    assert!(matches!(&e[..], [Effect::Clock(Clock::Restart)]));
    assert!(handle_mpv_event(&mut a, MpvEvent::StartPlaying("b".to_string())).is_empty());
    handle_mpv_event(&mut a, MpvEvent::PauseChange(true));
    assert_eq!(a.status, PlayerStatus::Paused);
    handle_mpv_event(&mut a, MpvEvent::StartPlaying("zz".to_string()));
    assert_eq!(a.playing_song, None);
    let e = handle_mpv_event(&mut a, MpvEvent::ListChange(vec!["a".to_string()]));
    assert_eq!(a.mpv_list, vec!["a".to_string()]);
    assert!(matches!(&e[..], [Effect::SaveQueue]));
}

#[test]
fn notification_texts() {
    assert_eq!(notice_text(&Notice::ClearedQueue), (NotifyType::Success, "Cleared Queue".to_string()));
    assert_eq!(
        notice_text(&Notice::AppendedToQueue("Song".into())),
        (NotifyType::Success, "Appended 'Song' in queue".to_string())
    );
    assert_eq!(
        notice_text(&Notice::Failed(FailedAction::Unlike("S".into()), YError::BadStatus("Unlike Song".into()))),
        (NotifyType::Error, "Failed to unlike 'S'\nError: Bad Status from: Unlike Song".to_string())
    );
    assert_eq!(
        notice_text(&Notice::Failed(FailedAction::FetchLibrary, YError::UnavailableFeature)),
        (NotifyType::Error, "Failed to fetch Library data: Unavailable Feature".to_string())
    );
    assert_eq!(
        notice_text(&Notice::LoggedOut).1,
        "Running in logged-out mode. Library features are unavailable"
    );
}

#[test]
fn songs_fetched_to_play_are_loaded() {
    let mut a = app();
    let e = handle_api_response(
        &mut a,
        ApiResponse::GetSongsToPlay { songs: Ok(vec![song("a")]), playlist_id: "PL".to_string() },
    );
    run(&mut a, e, true);
    assert_eq!(a.queue.len(), 1);
    assert_eq!(a.playing_playlist_id, Some("PL".to_string()));
    let e = handle_api_response(&mut a, ApiResponse::GetRelatedSongsToPlay(Ok(Vec::new())));
    assert!(matches!(&e[..], [Effect::Run(Plan::Clear { report: false })]));
}

#[test]
fn navigation_target_follows_focus() {
    let mut a = app();
    a.queue = vec![song("a")];
    a.focus_area = FocusArea::Queue;
    assert_eq!(list_to_navigate(&a), Some((ListId::Queue, 1)));
    a.is_insert = true;
    assert_eq!(list_to_navigate(&a), None);
}

#[test]
fn play_mode_switches_back_and_forth() {
    let mut a = app();
    key(&mut a, Key::Char('m'));
    key(&mut a, Key::Char('m'));
    assert_eq!(a.play_mode, PlayMode::DefaultMode);
}

#[test]
fn form_fields_go_round() {
    let mut a = app();
    a.focus_area = FocusArea::Playlists;
    key(&mut a, Key::Char('a'));
    for _ in 0..3 {
        key(&mut a, Key::Tab);
    }
    assert!(matches!(a.popup_state, PopupState::CreatePlaylist { focused_field: CreatePlaylistFocus::Title, .. }));
    key(&mut a, Key::Tab);
    key(&mut a, Key::Tab);
    key(&mut a, Key::Left);
    key(&mut a, Key::Right);
    assert!(matches!(a.popup_state, PopupState::CreatePlaylist { privacy: PlayListPrivacy::Private, .. }));
}

#[test]
fn list_moves_by_key() {
    assert_eq!(list_move(Key::Down), Some(ListMove::Next));
    assert_eq!(list_move(Key::Char('k')), Some(ListMove::Previous));
    assert_eq!(list_move(Key::Enter), None);
}

#[test]
fn checked_lookups_tolerate_stale_selections() {
    let mut a = app();
    a.page = AppPage::Library;
    a.focus_area = FocusArea::Albums;
    a.albums = vec![playlist("A1", false)];
    a.albums_selected = Some(3);
    assert!(!key_selection_holds(&a, Key::Char('l')));
    assert!(!key_selection_holds(&a, Key::Enter));
    let before = a.albums.len();
    assert!(key(&mut a, Key::Char('x')).is_empty());
    assert_eq!(a.albums.len(), before);

    a.focus_area = FocusArea::Songs;
    a.songs_selected = Some(7);
    assert!(key(&mut a, Key::Char('x')).is_empty());
    assert!(matches!(a.popup_state, PopupState::Closed));
    assert!(!key_selection_holds(&a, Key::Char('a')));

    let mut b = app();
    b.page = AppPage::Search;
    b.focus_area = FocusArea::SearchSongs;
    b.search_songs_selected = Some(2);
    assert!(key(&mut b, Key::Char('x')).is_empty());
    assert!(matches!(b.popup_state, PopupState::Closed));
    assert!(!key_selection_holds(&b, Key::Char('a')));
    b.focus_area = FocusArea::SearchAlbums;
    b.search_albums_selected = Some(1);
    assert!(key(&mut b, Key::Char('x')).is_empty());
    assert!(!key_selection_holds(&b, Key::Char('l')));

    let mut c = app();
    c.focus_area = FocusArea::Queue;
    c.queue_selected = Some(4);
    c.play_mode = PlayMode::ShuffleMode;
    assert!(!key_selection_holds(&c, Key::Char('d')));
    c.play_mode = PlayMode::DefaultMode;
    assert!(key_selection_holds(&c, Key::Char('d')));
}
