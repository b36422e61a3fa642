//! Per-track playback configuration and the update logic of the track
//! selection page.

use vstd::prelude::*;
use vstd::pervasive::VecAdditionalExecFns;

verus! {

/// How a single track is played back.
#[derive(Debug, Clone, Copy, PartialEq, Eq, Structural)]
pub enum PlayerConfig {
    /// The track is silent.
    Mute,
    /// The engine plays the track.
    Auto,
    /// The user plays the track.
    Human,
}

/// Playback configuration of one track.
#[derive(Debug, Clone, Copy, PartialEq, Eq, Structural)]
pub struct TrackConfig {
    pub player: PlayerConfig,
    pub visible: bool,
}

/// The loaded song, as far as the track page reads and edits it.
pub struct Song {
    pub tracks: Vec<TrackConfig>,
}

/// The application state the track page works on: at most one loaded song.
pub struct Context {
    pub song: Option<Song>,
}

/// The interactions the page reacts to.
#[derive(Debug, Clone)]
pub enum Event {
    Back,
    Play,
    /// Set every track's player at once.
    AllTracksPlayer(PlayerConfig),
    /// Set one track's player.
    TrackPlayer(usize, PlayerConfig),
    /// Show or hide one track.
    TrackVisibility(usize, bool),
}

/// The track selection page. It edits the song's per-track configuration and
/// reports `Back` and `Play` to its host through the two optional messages it
/// was built with.
pub struct TracksPage<MSG> {
    pub on_back: Option<MSG>,
    pub on_play: Option<MSG>,
}

impl<MSG> TracksPage<MSG> {
    /// A page that emits nothing for `Back` and `Play`.
    pub fn new() -> (r: Self)
        ensures
            r.on_back is None,
            r.on_play is None,
    {
        TracksPage { on_back: None, on_play: None }
    }

    /// Sets the message emitted when the user leaves the page.
    pub fn on_back(self, msg: MSG) -> (r: Self)
        ensures
            r.on_back == Some(msg),
            r.on_play == self.on_play,
    {
        TracksPage { on_back: Some(msg), ..self }
    }

    /// Sets the message emitted when the user starts playback.
    pub fn on_play(self, msg: MSG) -> (r: Self)
        ensures
            r.on_play == Some(msg),
            r.on_back == self.on_back,
    {
        TracksPage { on_play: Some(msg), ..self }
    }

    /// Applies one event to the context and returns the message, if any, that
    /// the host should receive. Without a loaded song the configuration
    /// events change nothing.
    pub fn update(&self, ctx: &mut Context, event: Event) -> (r: Option<MSG>) where MSG: Clone
        requires
            event matches Event::TrackPlayer(track, _) ==> (old(ctx).song matches Some(s) ==> track
                < s.tracks@.len()),
            event matches Event::TrackVisibility(track, _) ==> (old(ctx).song matches Some(s)
                ==> track < s.tracks@.len()),
        ensures
            event matches Event::AllTracksPlayer(config) ==> {
                &&& r is None
                &&& old(ctx).song is None ==> final(ctx).song is None
                &&& old(ctx).song matches Some(s) ==> final(ctx).song matches Some(s2)
                    && s2.tracks@.len() == s.tracks@.len() && forall|j: int|
                    0 <= j < s.tracks@.len() ==> s2.tracks@[j] == (TrackConfig {
                        player: config,
                        visible: s.tracks@[j].visible,
                    })
            },
            event matches Event::TrackPlayer(track, config) ==> {
                &&& r is None
                &&& old(ctx).song is None ==> final(ctx).song is None
                &&& old(ctx).song matches Some(s) ==> final(ctx).song matches Some(s2)
                    && s2.tracks@ == s.tracks@.update(
                    track as int,
                    (TrackConfig { player: config, visible: s.tracks@[track as int].visible }),
                )
            },
            event matches Event::TrackVisibility(track, visible) ==> {
                &&& r is None
                &&& old(ctx).song is None ==> final(ctx).song is None
                &&& old(ctx).song matches Some(s) ==> final(ctx).song matches Some(s2)
                    && s2.tracks@ == s.tracks@.update(
                    track as int,
                    (TrackConfig { player: s.tracks@[track as int].player, visible }),
                )
            },
            event is Back ==> {
                &&& *final(ctx) == *old(ctx)
                &&& r is Some <==> self.on_back is Some
                &&& self.on_back matches Some(m) ==> r matches Some(rm)
                    && vstd::pervasive::cloned(m, rm)
            },
            event is Play ==> {
                &&& *final(ctx) == *old(ctx)
                &&& r is Some <==> self.on_play is Some
                &&& self.on_play matches Some(m) ==> r matches Some(rm)
                    && vstd::pervasive::cloned(m, rm)
            },
    {
        match event {
            Event::AllTracksPlayer(config) => {
                let taken = ctx.song.take();
                match taken {
                    Some(mut song) => {
                        let ghost orig = song.tracks@;
                        let mut i: usize = 0;
                        while i < song.tracks.len()
                            invariant
                                i <= song.tracks@.len(),
                                song.tracks@.len() == orig.len(),
                                forall|j: int|
                                    0 <= j < i ==> song.tracks@[j] == (TrackConfig {
                                        player: config,
                                        visible: orig[j].visible,
                                    }),
                                forall|j: int| i <= j < orig.len() ==> song.tracks@[j] == orig[j],
                            decreases song.tracks@.len() - i,
                        {
                            let mut tc = song.tracks[i];
                            tc.player = config;
                            song.tracks.set(i, tc);
                            i += 1;
                        }
                        ctx.song = Some(song);
                    },
                    None => {},
                }
                None
            },
            Event::TrackPlayer(track, config) => {
                let taken = ctx.song.take();
                match taken {
                    Some(mut song) => {
                        let mut tc = song.tracks[track];
                        tc.player = config;
                        song.tracks.set(track, tc);
                        ctx.song = Some(song);
                    },
                    None => {},
                }
                None
            },
            Event::TrackVisibility(track, visible) => {
                let taken = ctx.song.take();
                match taken {
                    Some(mut song) => {
                        let mut tc = song.tracks[track];
                        tc.visible = visible;
                        song.tracks.set(track, tc);
                        ctx.song = Some(song);
                    },
                    None => {},
                }
                None
            },
            Event::Back => self.on_back.clone(),
            Event::Play => self.on_play.clone(),
        }
    }
}

} // verus!
