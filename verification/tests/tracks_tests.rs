use neothesia::tracks::{Context, Event, PlayerConfig, Song, TrackConfig, TracksPage};

fn track(player: PlayerConfig, visible: bool) -> TrackConfig {
    TrackConfig { player, visible }
}

fn three_track_context() -> Context {
    Context {
        song: Some(Song {
            tracks: vec![
                track(PlayerConfig::Auto, true),
                track(PlayerConfig::Mute, false),
                track(PlayerConfig::Human, true),
            ],
        }),
    }
}

#[test]
fn new_page_emits_nothing() {
    let page: TracksPage<u32> = TracksPage::new();
    let mut ctx = three_track_context();
    assert_eq!(page.update(&mut ctx, Event::Back), None);
    assert_eq!(page.update(&mut ctx, Event::Play), None);
}

#[test]
fn back_and_play_emit_the_configured_messages() {
    let page: TracksPage<u32> = TracksPage::new().on_back(7).on_play(9);
    let mut ctx = Context { song: None };
    assert_eq!(page.update(&mut ctx, Event::Back), Some(7));
    assert_eq!(page.update(&mut ctx, Event::Play), Some(9));
}

#[test]
fn all_tracks_player_sets_every_track() {
    let page: TracksPage<u32> = TracksPage::new();
    let mut ctx = three_track_context();
    let r = page.update(&mut ctx, Event::AllTracksPlayer(PlayerConfig::Human));
    assert_eq!(r, None);
    let song = ctx.song.as_ref().unwrap();
    assert_eq!(
        song.tracks,
        vec![
            track(PlayerConfig::Human, true),
            track(PlayerConfig::Human, false),
            track(PlayerConfig::Human, true),
        ]
    );
}

#[test]
fn track_player_sets_only_that_track() {
    let page: TracksPage<u32> = TracksPage::new();
    let mut ctx = three_track_context();
    let r = page.update(&mut ctx, Event::TrackPlayer(1, PlayerConfig::Auto));
    assert_eq!(r, None);
    let song = ctx.song.as_ref().unwrap();
    assert_eq!(
        song.tracks,
        vec![
            track(PlayerConfig::Auto, true),
            track(PlayerConfig::Auto, false),
            track(PlayerConfig::Human, true),
        ]
    );
}

#[test]
fn track_visibility_toggles_only_that_track() {
    let page: TracksPage<u32> = TracksPage::new();
    let mut ctx = three_track_context();
    let r = page.update(&mut ctx, Event::TrackVisibility(0, false));
    assert_eq!(r, None);
    let song = ctx.song.as_ref().unwrap();
    assert_eq!(
        song.tracks,
        vec![
            track(PlayerConfig::Auto, false),
            track(PlayerConfig::Mute, false),
            track(PlayerConfig::Human, true),
        ]
    );
}

#[test]
fn config_events_without_a_song_change_nothing() {
    let page: TracksPage<u32> = TracksPage::new();
    let mut ctx = Context { song: None };
    assert_eq!(page.update(&mut ctx, Event::AllTracksPlayer(PlayerConfig::Mute)), None);
    assert_eq!(page.update(&mut ctx, Event::TrackPlayer(0, PlayerConfig::Auto)), None);
    assert_eq!(page.update(&mut ctx, Event::TrackVisibility(0, true)), None);
    assert!(ctx.song.is_none());
}

#[test]
fn builders_keep_the_other_callback() {
    let page: TracksPage<&'static str> = TracksPage::new().on_play("play").on_back("back");
    let mut ctx = Context { song: None };
    assert_eq!(page.update(&mut ctx, Event::Play), Some("play"));
    assert_eq!(page.update(&mut ctx, Event::Back), Some("back"));
}
